//! The ordered stages of the main 3D render graph and the place of the
//! effect among them.

use vstd::prelude::*;
use crate::seq_facts::lemma_index_of_unique;

verus! {

/// A named stage of the render graph.
#[derive(Clone, Copy, Debug, PartialEq, Eq, Structural)]
pub enum Stage {
    /// Maps scene color to display range; the effect reads its output.
    Tonemapping,
    /// The rain glare effect.
    RainGlare,
    /// Ends post-processing; the effect must be done before it.
    EndMainPassPostProcessing,
    /// Any other stage, by number.
    Other(u32),
}

/// Why the effect could not be placed.
#[derive(Clone, Copy, Debug, PartialEq, Eq, Structural)]
pub enum GraphError {
    /// The graph already holds the effect.
    AlreadyRegistered,
    /// The graph has no tone-mapping stage.
    MissingTonemapping,
    /// The graph has no stage that ends post-processing.
    MissingEndMainPassPostProcessing,
    /// Post-processing ends before tone mapping.
    OutOfOrder,
}

/// The graph with the effect placed directly after tone mapping, or why it
/// cannot be placed.
pub open spec fn spec_add_rain_glare(stages: Seq<Stage>) -> Result<Seq<Stage>, GraphError> {
    if stages.contains(Stage::RainGlare) {
        Err(GraphError::AlreadyRegistered)
    } else if !stages.contains(Stage::Tonemapping) {
        Err(GraphError::MissingTonemapping)
    } else if !stages.contains(Stage::EndMainPassPostProcessing) {
        Err(GraphError::MissingEndMainPassPostProcessing)
    } else if stages.index_of(Stage::EndMainPassPostProcessing) < stages.index_of(
        Stage::Tonemapping,
    ) {
        Err(GraphError::OutOfOrder)
    } else {
        Ok(stages.insert(stages.index_of(Stage::Tonemapping) + 1, Stage::RainGlare))
    }
}

/// The stages of a render graph in the order they run; no stage twice.
pub struct RenderGraph {
    stages: Vec<Stage>,
}

impl RenderGraph {
    /// The stages in the order they run.
    pub closed spec fn view(&self) -> Seq<Stage> {
        self.stages@
    }

    /// No stage stands in the graph twice.
    pub open spec fn wf(&self) -> bool {
        self@.no_duplicates()
    }

    /// A graph without stages.
    pub fn new() -> (g: RenderGraph)
        ensures
            g.wf(),
            g@.len() == 0,
    {
        RenderGraph { stages: Vec::new() }
    }

    /// The stages in the order they run.
    pub fn stages(&self) -> (stages: &Vec<Stage>)
        ensures
            stages@ == self@,
    {
        &self.stages
    }

    /// Where `stage` stands in the graph.
    pub fn position(&self, stage: Stage) -> (at: Option<usize>)
        requires
            self.wf(),
        ensures
            match at {
                Some(i) => i < self@.len() && self@[i as int] == stage && self@.index_of(stage)
                    == i,
                None => !self@.contains(stage),
            },
    {
        let mut i: usize = 0;
        while i < self.stages.len()
            invariant
                self.wf(),
                i <= self@.len(),
                forall|k: int| 0 <= k < i ==> self@[k] != stage,
            decreases self@.len() - i,
        {
            if self.stages[i] == stage {
                proof {
                    lemma_index_of_unique(self@, i as int);
                }
                return Some(i);
            }
            i += 1;
        }
        None
    }

    /// Appends `stage` as the last to run, unless the graph holds it
    /// already. Returns whether it was appended.
    pub fn add_stage(&mut self, stage: Stage) -> (added: bool)
        requires
            old(self).wf(),
        ensures
            final(self).wf(),
            added == !old(self)@.contains(stage),
            final(self)@ == if added {
                old(self)@.push(stage)
            } else {
                old(self)@
            },
    {
        match self.position(stage) {
            Some(_) => false,
            None => {
                self.stages.push(stage);
                true
            },
        }
    }

    /// Places the effect directly after tone mapping, which must come before
    /// the end of post-processing. Where that cannot be done the graph stays
    /// as it was.
    pub fn add_rain_glare(&mut self) -> (r: Result<(), GraphError>)
        requires
            old(self).wf(),
        ensures
            final(self).wf(),
            match r {
                Ok(()) => spec_add_rain_glare(old(self)@) == Ok::<Seq<Stage>, GraphError>(
                    final(self)@,
                ),
                Err(e) => spec_add_rain_glare(old(self)@) == Err::<Seq<Stage>, GraphError>(e)
                    && final(self)@ == old(self)@,
            },
    {
        if self.position(Stage::RainGlare).is_some() {
            return Err(GraphError::AlreadyRegistered);
        }
        let tonemapping = match self.position(Stage::Tonemapping) {
            Some(i) => i,
            None => {
                return Err(GraphError::MissingTonemapping);
            },
        };
        let end = match self.position(Stage::EndMainPassPostProcessing) {
            Some(i) => i,
            None => {
                return Err(GraphError::MissingEndMainPassPostProcessing);
            },
        };
        if end < tonemapping {
            return Err(GraphError::OutOfOrder);
        }
        proof {
            lemma_rain_glare_placed(self@);
        }
        self.stages.insert(tonemapping + 1, Stage::RainGlare);
        Ok(())
    }
}

/// Once placed, the effect runs directly after tone mapping and before the
/// end of post-processing; directly before it where nothing stood between
/// the two. The other stages keep their order.
pub proof fn lemma_rain_glare_placed(stages: Seq<Stage>)
    requires
        stages.no_duplicates(),
        spec_add_rain_glare(stages) is Ok,
    ensures
        ({
            let after = spec_add_rain_glare(stages)->Ok_0;
            let t = after.index_of(Stage::Tonemapping);
            let r = after.index_of(Stage::RainGlare);
            let e = after.index_of(Stage::EndMainPassPostProcessing);
            &&& after.no_duplicates()
            &&& after.len() == stages.len() + 1
            &&& 0 <= t && e < after.len()
            &&& after[t] == Stage::Tonemapping
            &&& after[r] == Stage::RainGlare
            &&& after[e] == Stage::EndMainPassPostProcessing
            &&& r == t + 1
            &&& r < e
            &&& stages.index_of(Stage::EndMainPassPostProcessing) == stages.index_of(
                Stage::Tonemapping,
            ) + 1 ==> e == r + 1
            &&& after.remove(r) == stages
        }),
{
    let after = spec_add_rain_glare(stages)->Ok_0;
    let t0 = stages.index_of(Stage::Tonemapping);
    let e0 = stages.index_of(Stage::EndMainPassPostProcessing);
    assert(0 <= t0 < stages.len() && stages[t0] == Stage::Tonemapping);
    assert(0 <= e0 < stages.len() && stages[e0] == Stage::EndMainPassPostProcessing);
    assert(t0 < e0);
    assert(after == stages.insert(t0 + 1, Stage::RainGlare));
    assert(after.len() == stages.len() + 1);
    assert forall|k: int| 0 <= k < after.len() implies #[trigger] after[k] == (if k <= t0 {
        stages[k]
    } else if k == t0 + 1 {
        Stage::RainGlare
    } else {
        stages[k - 1]
    }) by {}
    assert forall|i: int, j: int|
        0 <= i < after.len() && 0 <= j < after.len() && i != j implies after[i] != after[j] by {
        let a = if i <= t0 {
            i
        } else {
            i - 1
        };
        let b = if j <= t0 {
            j
        } else {
            j - 1
        };
        if i != t0 + 1 && j != t0 + 1 {
            assert(after[i] == stages[a] && after[j] == stages[b]);
        } else if i == t0 + 1 {
            assert(after[j] == stages[b]);
            assert(stages.contains(stages[b]));
        } else {
            assert(after[i] == stages[a]);
            assert(stages.contains(stages[a]));
        }
    }
    assert(after[t0] == Stage::Tonemapping);
    assert(after[t0 + 1] == Stage::RainGlare);
    assert(after[e0 + 1] == Stage::EndMainPassPostProcessing);
    lemma_index_of_unique(after, t0);
    lemma_index_of_unique(after, t0 + 1);
    lemma_index_of_unique(after, e0 + 1);
    assert(after.remove(t0 + 1) =~= stages);
}

} // verus!
