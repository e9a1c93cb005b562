//! The pipeline bank: an ordered set of compiled render pipelines that
//! share one layout, with a current selection index.
//!
//! The bank holds the facts the render loop decides by: which layout every
//! pipeline was compiled against (one and the same, checked at build time),
//! which shader entry points each pipeline uses, and which pipeline is
//! currently selected.  The surrounding program compiles one real pipeline
//! per entry of the bank and indexes its own store by the selection.

use vstd::prelude::*;

verus! {

/// The model of one compiled pipeline: the layout it was compiled against
/// and the shader entry points of its vertex and fragment stages.
#[derive(Clone, Debug, PartialEq, Eq)]
pub struct PipelineModel {
    pub layout_id: u64,
    pub vertex_entry: String,
    pub fragment_entry: String,
}

/// An ordered bank of pipelines sharing one layout, plus the index of the
/// currently selected pipeline.
#[derive(Clone, Debug)]
pub struct PipelineBank {
    pub pipelines: Vec<PipelineModel>,
    pub selection: usize,
}

/// The selection index after one advance: forward by one, wrapping at the
/// end of the bank.  For a two-element bank this flips between the ends.
pub open spec fn next_selection(selection: int, len: int) -> int {
    (selection + 1) % len
}

impl PipelineBank {
    /// The bank invariant: at least one pipeline, a selection inside the
    /// bank, and every pipeline compiled against the same layout.
    pub open spec fn wf(self) -> bool {
        &&& self.pipelines.len() >= 1
        &&& self.selection < self.pipelines.len()
        &&& forall|i: int|
            #![trigger self.pipelines[i]]
            0 <= i < self.pipelines.len() ==> self.pipelines[i].layout_id
                == self.pipelines[0].layout_id
    }

    /// Build one pipeline per entry-point pair `(vertex, fragment)`, all
    /// sharing `layout_id`, with the first pipeline selected.  Fails
    /// exactly when no entry-point pair is given; the surrounding program
    /// treats that, like a failed compilation, as a fatal startup error.
    pub fn build(layout_id: u64, entry_points: &Vec<(String, String)>) -> (r: Option<
        PipelineBank,
    >)
        ensures
            r is Some <==> entry_points.len() >= 1,
            r matches Some(b) ==> {
                &&& b.wf()
                &&& b.selection == 0
                &&& b.pipelines.len() == entry_points.len()
                &&& forall|i: int|
                    0 <= i < entry_points.len() ==> {
                        &&& b.pipelines[i].layout_id == layout_id
                        &&& b.pipelines[i].vertex_entry == entry_points[i].0
                        &&& b.pipelines[i].fragment_entry == entry_points[i].1
                    }
            },
    {
        if entry_points.len() == 0 {
            return None;
        }
        let mut pipelines: Vec<PipelineModel> = Vec::new();
        let mut i: usize = 0;
        while i < entry_points.len()
            invariant
                0 <= i <= entry_points.len(),
                pipelines.len() == i,
                forall|j: int|
                    0 <= j < i ==> {
                        &&& pipelines[j].layout_id == layout_id
                        &&& pipelines[j].vertex_entry == entry_points[j].0
                        &&& pipelines[j].fragment_entry == entry_points[j].1
                    },
            decreases entry_points.len() - i,
        {
            let pair = &entry_points[i];
            pipelines.push(
                PipelineModel {
                    layout_id,
                    vertex_entry: pair.0.clone(),
                    fragment_entry: pair.1.clone(),
                },
            );
            i += 1;
        }
        Some(PipelineBank { pipelines, selection: 0 })
    }

    /// Advance the selection by one, wrapping at the end of the bank.
    /// A pure state change: no pipeline is touched.
    pub fn toggle(&mut self)
        requires
            old(self).wf(),
        ensures
            final(self).wf(),
            final(self).pipelines == old(self).pipelines,
            final(self).selection as int == next_selection(
                old(self).selection as int,
                old(self).pipelines.len() as int,
            ),
    {
        self.selection = (self.selection + 1) % self.pipelines.len();
    }

    /// The pipeline at the current selection index.
    pub fn current(&self) -> (r: &PipelineModel)
        requires
            self.wf(),
        ensures
            r == self.pipelines[self.selection as int],
    {
        &self.pipelines[self.selection]
    }

    /// The current selection index, for indexing a parallel store of
    /// compiled pipelines.
    pub fn selected(&self) -> (r: usize)
        ensures
            r == self.selection,
    {
        self.selection
    }
}

/// Law: on a bank of one or two pipelines, advancing the selection twice
/// returns it to its original value.  On a longer bank the selection walks
/// forward instead and two advances land two places on, so the law is
/// stated for the banks on which it holds.
pub proof fn lemma_toggle_involution(selection: int, len: int)
    requires
        0 <= selection < len,
        len <= 2,
    ensures
        next_selection(next_selection(selection, len), len) == selection,
{
    if len == 1 {
        assert(selection == 0);
        assert(next_selection(0, 1) == 0);
    } else {
        assert(len == 2);
        if selection == 0 {
            assert(next_selection(0, 2) == 1);
            assert(next_selection(1, 2) == 0);
        } else {
            assert(selection == 1);
            assert(next_selection(1, 2) == 0);
            assert(next_selection(0, 2) == 1);
        }
    }
}

} // verus!
