use crate::decl::{
    check_mesh_decl, check_uv_mesh_decl, submission_result, MeshDecl, UvMeshDecl,
};
use crate::options::{ChartOptions, PackOptions};
use crate::output::{spec_image_view, AtlasReport, Mesh};
use crate::status::AddMeshError;
use vstd::prelude::*;

verus! {

/// The abstract state of an atlas wrapper: the counters and output views a
/// caller can observe. Counts are unbounded integers at this level; the
/// executable accessors return the engine's 32-bit values.
pub struct AtlasView {
    /// Number of accepted mesh and UV-mesh submissions; the engine builds one
    /// output mesh per accepted submission.
    pub mesh_count: int,
    /// Whether a chart computation has run.
    pub charts_computed: bool,
    /// Total chart count the engine reported after the last chart
    /// computation.
    pub chart_count: int,
    /// Whether a packing has run and its output views are current.
    pub packed: bool,
    pub width: int,
    pub height: int,
    pub atlas_count: int,
    /// The output meshes of the current generation.
    pub meshes: Seq<Mesh>,
    /// The composited image of the current generation, when one was
    /// requested.
    pub image: Option<Seq<u32>>,
}

/// The state of a freshly created atlas: nothing submitted, nothing
/// generated, every count zero and every optional output absent.
pub open spec fn spec_initial_view() -> AtlasView {
    AtlasView {
        mesh_count: 0,
        charts_computed: false,
        chart_count: 0,
        packed: false,
        width: 0,
        height: 0,
        atlas_count: 0,
        meshes: Seq::empty(),
        image: None,
    }
}

/// Whether an atlas view shows exactly the engine-reported atlas `report`:
/// every output view published after a packing step, nothing else.
pub open spec fn reflects_pack_report(v: AtlasView, report: AtlasReport) -> bool {
    &&& v.packed
    &&& v.width == report.width
    &&& v.height == report.height
    &&& v.atlas_count == report.atlas_count
    &&& v.meshes == report.meshes@
    &&& v.image == spec_image_view(report.image)
}

/// The safe face of the engine's one opaque resource.
///
/// The engine handle itself lives with the unverified rim, which owns this
/// state beside it, submits each declaration the validator accepts, runs the
/// engine's computation and packing phases, and feeds the engine's published
/// results back in as plain values. This type decides what a submission
/// returns and guarantees that every published view matches the engine's
/// latest report exactly: regenerating replaces all output views, so no stale
/// extent or buffer of an earlier generation can be read.
pub struct Xatlas {
    meshes_added: u32,
    charts_computed: bool,
    chart_count: u32,
    packed: bool,
    width: u32,
    height: u32,
    atlas_count: u32,
    meshes: Vec<Mesh>,
    image: Option<Vec<u32>>,
}

impl View for Xatlas {
    type V = AtlasView;

    closed spec fn view(&self) -> AtlasView {
        AtlasView {
            mesh_count: self.meshes_added as int,
            charts_computed: self.charts_computed,
            chart_count: self.chart_count as int,
            packed: self.packed,
            width: self.width as int,
            height: self.height as int,
            atlas_count: self.atlas_count as int,
            meshes: self.meshes@,
            image: spec_image_view(self.image),
        }
    }
}

impl Xatlas {
    /// The internal agreement between the counters and the stored output:
    /// before a packing there is no output at all, after one the output
    /// meshes tally with the accepted submissions, and a stored image covers
    /// every atlas page at the published resolution.
    pub closed spec fn wf(&self) -> bool {
        &&& (self.packed ==> self.meshes@.len() == self.meshes_added && self.charts_computed)
        &&& (!self.packed ==> self.meshes@.len() == 0 && self.image is None && self.width == 0
            && self.height == 0 && self.atlas_count == 0)
        &&& (self.image matches Some(img) ==> img@.len() == self.atlas_count * self.width
            * self.height)
    }

    /// A fresh wrapper around a fresh, empty engine resource.
    pub fn new() -> (r: Xatlas)
        ensures
            r.wf(),
            r@ == spec_initial_view(),
    {
        let r = Xatlas {
            meshes_added: 0,
            charts_computed: false,
            chart_count: 0,
            packed: false,
            width: 0,
            height: 0,
            atlas_count: 0,
            meshes: Vec::new(),
            image: None,
        };
        proof {
            assert(r.meshes@ =~= Seq::<Mesh>::empty());
        }
        r
    }

    /// Width of the generated atlas pages in texels.
    pub fn width(&self) -> (r: u32)
        ensures
            r == self@.width,
    {
        self.width
    }

    /// Height of the generated atlas pages in texels.
    pub fn height(&self) -> (r: u32)
        ensures
            r == self@.height,
    {
        self.height
    }

    /// Number of atlas pages the last packing produced.
    pub fn atlas_count(&self) -> (r: u32)
        ensures
            r == self@.atlas_count,
    {
        self.atlas_count
    }

    /// Total chart count the engine reported after the last chart
    /// computation.
    pub fn chart_count(&self) -> (r: u32)
        ensures
            r == self@.chart_count,
    {
        self.chart_count
    }

    /// Number of accepted submissions; the engine builds one output mesh for
    /// each.
    pub fn mesh_count(&self) -> (r: u32)
        ensures
            r == self@.mesh_count,
    {
        self.meshes_added
    }

    /// Whether a chart computation has run. Once it has, the submission round
    /// is closed.
    pub fn charts_computed(&self) -> (r: bool)
        ensures
            r == self@.charts_computed,
    {
        self.charts_computed
    }

    /// Whether a packing has run and its output views are current.
    pub fn packed(&self) -> (r: bool)
        ensures
            r == self@.packed,
    {
        self.packed
    }

    /// Submits a mesh declaration.
    pub fn add_mesh(&mut self, mesh_decl: &MeshDecl) -> (r: Result<(), AddMeshError>)
        requires
            old(self).wf(),
            !old(self)@.charts_computed,
            mesh_decl.wf(),
            old(self)@.mesh_count < u32::MAX,
        ensures
            final(self).wf(),
            r == submission_result(mesh_decl.spec_submission_error()),
            r is Ok ==> final(self)@ == (AtlasView { mesh_count: old(self)@.mesh_count + 1, ..old(
                self,
            )@ }),
            r is Err ==> final(self)@ == old(self)@,
    {
        self.add_mesh_with_mesh_count_hint(mesh_decl, 0)
    }

    /// Submits a mesh declaration with a preallocation hint: the expected
    /// total number of submissions in this additive round. The hint is pure
    /// performance advice the unverified rim forwards to the engine; it never
    /// affects the outcome, and zero is always correct.
    ///
    /// The declaration is validated as the engine's documented contract
    /// demands, in the order `MeshDecl::spec_submission_error` states, and is
    /// counted only when accepted.
    #[allow(unused_variables)]
    pub fn add_mesh_with_mesh_count_hint(
        &mut self,
        mesh_decl: &MeshDecl,
        mesh_count_hint: u32,
    ) -> (r: Result<(), AddMeshError>)
        requires
            old(self).wf(),
            !old(self)@.charts_computed,
            mesh_decl.wf(),
            old(self)@.mesh_count < u32::MAX,
        ensures
            final(self).wf(),
            r == submission_result(mesh_decl.spec_submission_error()),
            r is Ok ==> final(self)@ == (AtlasView { mesh_count: old(self)@.mesh_count + 1, ..old(
                self,
            )@ }),
            r is Err ==> final(self)@ == old(self)@,
    {
        match check_mesh_decl(mesh_decl) {
            Some(e) => Err(e),
            None => {
                self.meshes_added = self.meshes_added + 1;
                Ok(())
            },
        }
    }

    /// Joins an additive multi-call submission round. All the work happens
    /// inside the engine; the observable state does not change.
    pub fn add_mesh_join(&mut self)
        requires
            old(self).wf(),
        ensures
            final(self).wf(),
            final(self)@ == old(self)@,
    {
    }

    /// Submits a UV-mesh declaration for 2-D overlap resolution, bypassing
    /// 3-D chart computation. Validated as the engine's documented contract
    /// demands, in the order `UvMeshDecl::spec_submission_error` states, and
    /// counted only when accepted.
    pub fn add_uv_mesh(&mut self, decl: &UvMeshDecl) -> (r: Result<(), AddMeshError>)
        requires
            old(self).wf(),
            !old(self)@.charts_computed,
            decl.wf(),
            old(self)@.mesh_count < u32::MAX,
        ensures
            final(self).wf(),
            r == submission_result(decl.spec_submission_error()),
            r is Ok ==> final(self)@ == (AtlasView { mesh_count: old(self)@.mesh_count + 1, ..old(
                self,
            )@ }),
            r is Err ==> final(self)@ == old(self)@,
    {
        match check_uv_mesh_decl(decl) {
            Some(e) => Err(e),
            None => {
                self.meshes_added = self.meshes_added + 1;
                Ok(())
            },
        }
    }

    /// Records a chart computation the engine ran with the given options and
    /// reported `reported_chart_count` total charts for. Callable again with
    /// new options to recompute; every output view of an earlier packing is
    /// invalidated and reads as absent or empty until the next packing.
    ///
    /// The engine returns no per-call status for this phase: a failure shows
    /// only as degraded output (zero charts), an accepted limitation of the
    /// engine's contract, not surfaced as a recoverable error.
    #[allow(unused_variables)]
    pub fn compute_charts(&mut self, options: &ChartOptions, reported_chart_count: u32)
        requires
            old(self).wf(),
        ensures
            final(self).wf(),
            final(self)@ == (AtlasView {
                mesh_count: old(self)@.mesh_count,
                charts_computed: true,
                chart_count: reported_chart_count as int,
                packed: false,
                width: 0,
                height: 0,
                atlas_count: 0,
                meshes: Seq::empty(),
                image: None,
            }),
    {
        self.charts_computed = true;
        self.chart_count = reported_chart_count;
        self.packed = false;
        self.width = 0;
        self.height = 0;
        self.atlas_count = 0;
        self.meshes = Vec::new();
        self.image = None;
        proof {
            assert(self.meshes@ =~= Seq::<Mesh>::empty());
        }
    }

    /// Records a packing the engine ran with the given options, replacing
    /// every output view with the engine's fresh report. Callable again with
    /// new options to re-pack. Chart computation must have run first.
    ///
    /// The engine publishes one output mesh per accepted submission and
    /// composites an image exactly when the options request one; the
    /// unverified rim reads the report off the handle, so both hold of it by
    /// construction.
    #[allow(unused_variables)]
    pub fn pack_charts(&mut self, pack_options: &PackOptions, report: AtlasReport)
        requires
            old(self).wf(),
            old(self)@.charts_computed,
            report.wf(),
            report.meshes@.len() == old(self)@.mesh_count,
            report.image is Some <==> pack_options.create_image,
        ensures
            final(self).wf(),
            final(self)@ == (AtlasView {
                mesh_count: old(self)@.mesh_count,
                charts_computed: true,
                chart_count: old(self)@.chart_count,
                packed: true,
                width: report.width as int,
                height: report.height as int,
                atlas_count: report.atlas_count as int,
                meshes: report.meshes@,
                image: spec_image_view(report.image),
            }),
            reflects_pack_report(final(self)@, report),
    {
        self.packed = true;
        self.width = report.width;
        self.height = report.height;
        self.atlas_count = report.atlas_count;
        self.meshes = report.meshes;
        self.image = report.image;
    }

    /// Records a full generation: a chart computation followed by a packing,
    /// as the engine's one-call convenience entry point performs them.
    /// Callable again with new options to regenerate; the fresh report
    /// replaces every output view.
    ///
    /// The engine returns no per-call status for generation: a failure shows
    /// only as degraded output (zero charts or atlases), an accepted
    /// limitation of the engine's contract, not surfaced as a recoverable
    /// error.
    pub fn generate(
        &mut self,
        chart_options: &ChartOptions,
        pack_options: &PackOptions,
        reported_chart_count: u32,
        report: AtlasReport,
    )
        requires
            old(self).wf(),
            report.wf(),
            report.meshes@.len() == old(self)@.mesh_count,
            report.image is Some <==> pack_options.create_image,
        ensures
            final(self).wf(),
            final(self)@ == (AtlasView {
                mesh_count: old(self)@.mesh_count,
                charts_computed: true,
                chart_count: reported_chart_count as int,
                packed: true,
                width: report.width as int,
                height: report.height as int,
                atlas_count: report.atlas_count as int,
                meshes: report.meshes@,
                image: spec_image_view(report.image),
            }),
            reflects_pack_report(final(self)@, report),
    {
        self.compute_charts(chart_options, reported_chart_count);
        self.pack_charts(pack_options, report);
    }

    /// Read-only view of the output meshes of the current generation, one per
    /// accepted submission; empty while no packing is current. The view is
    /// replaced wholesale by the next chart computation or packing.
    pub fn meshes(&self) -> (r: &Vec<Mesh>)
        requires
            self.wf(),
        ensures
            r@ == self@.meshes,
            self@.packed ==> r@.len() == self@.mesh_count,
            !self@.packed ==> r@.len() == 0,
    {
        &self.meshes
    }

    /// Read-only view of the composited atlas image of the current
    /// generation. Absent -- not empty -- whenever the last packing did not
    /// request one; when present, it covers every atlas page at the published
    /// resolution.
    pub fn image(&self) -> (r: Option<&Vec<u32>>)
        requires
            self.wf(),
        ensures
            r is Some <==> self@.image is Some,
            r matches Some(v) ==> self@.image == Some(v@) && v@.len() == self@.atlas_count
                * self@.width * self@.height,
    {
        match &self.image {
            Some(v) => Some(v),
            None => None,
        }
    }
}

impl Default for Xatlas {
    /// Same as `Xatlas::new`.
    fn default() -> (r: Self)
        ensures
            r.wf(),
            r@ == spec_initial_view(),
    {
        Xatlas::new()
    }
}

/// Law: the views published after a packing are a function of the engine's
/// fresh report alone. Two atlas states that reflect the same report show
/// identical extents, meshes and image, whatever generations either one went
/// through before: no stale view survives a regeneration.
pub proof fn lemma_regenerated_views_match_report(v1: AtlasView, v2: AtlasView, report: AtlasReport)
    requires
        reflects_pack_report(v1, report),
        reflects_pack_report(v2, report),
    ensures
        v1.width == v2.width,
        v1.height == v2.height,
        v1.atlas_count == v2.atlas_count,
        v1.meshes == v2.meshes,
        v1.image == v2.image,
{
}

} // verus!
