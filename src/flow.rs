use vstd::prelude::*;

verus! {

/// The stages of one run of the greeting flow for a payer and a program.
#[derive(Debug, Clone, Copy, PartialEq, Eq, Structural)]
pub enum FlowStage {
    /// The payer's balance is checked against the requirement.
    Start,
    /// The payer is short of lamports: an airdrop is requested and confirmed.
    Fund,
    /// The greeting account is created unless it exists.
    EnsureAccount,
    /// The greeting instruction is sent.
    Dispatch,
    /// The counter is read back.
    ReadState,
    /// The run has completed.
    Done,
    /// A stage failed: the run stops here.
    Failed,
}

/// Whether a stage ends the run.
pub open spec fn is_terminal(stage: FlowStage) -> bool {
    stage is Done || stage is Failed
}

/// The stage that follows `stage` once it has `succeeded` or not; at the start,
/// `short_of_funds` says whether the balance was below the requirement.
pub open spec fn next_stage_spec(stage: FlowStage, succeeded: bool, short_of_funds: bool) -> FlowStage {
    if is_terminal(stage) {
        stage
    } else if !succeeded {
        FlowStage::Failed
    } else {
        match stage {
            FlowStage::Start => if short_of_funds {
                FlowStage::Fund
            } else {
                FlowStage::EnsureAccount
            },
            FlowStage::Fund => FlowStage::EnsureAccount,
            FlowStage::EnsureAccount => FlowStage::Dispatch,
            FlowStage::Dispatch => FlowStage::ReadState,
            _ => FlowStage::Done,
        }
    }
}

/// Moves the flow on after a stage has run.
pub fn next_stage(stage: FlowStage, succeeded: bool, short_of_funds: bool) -> (r: FlowStage)
    ensures
        r == next_stage_spec(stage, succeeded, short_of_funds),
{
    match stage {
        FlowStage::Done => FlowStage::Done,
        FlowStage::Failed => FlowStage::Failed,
        _ => if !succeeded {
            FlowStage::Failed
        } else {
            match stage {
                FlowStage::Start => if short_of_funds {
                    FlowStage::Fund
                } else {
                    FlowStage::EnsureAccount
                },
                FlowStage::Fund => FlowStage::EnsureAccount,
                FlowStage::EnsureAccount => FlowStage::Dispatch,
                FlowStage::Dispatch => FlowStage::ReadState,
                _ => FlowStage::Done,
            }
        },
    }
}

/// The stage reached from `Start` after the given stage outcomes, with the
/// balance check reporting `short_of_funds`.
pub open spec fn run_spec(outcomes: Seq<bool>, short_of_funds: bool) -> FlowStage
    decreases outcomes.len(),
{
    if outcomes.len() == 0 {
        FlowStage::Start
    } else {
        next_stage_spec(
            run_spec(outcomes.drop_last(), short_of_funds),
            outcomes.last(),
            short_of_funds,
        )
    }
}

/// A run whose stages all succeed passes through funding exactly when the payer is
/// short, reaches `Done` after five or six stages, and stays there; a failed
/// stage ends the run in `Failed` for good.
pub proof fn lemma_flow_order(short_of_funds: bool, extra: Seq<bool>)
    ensures
        next_stage_spec(FlowStage::Start, true, short_of_funds) == (if short_of_funds {
            FlowStage::Fund
        } else {
            FlowStage::EnsureAccount
        }),
        ({
            let n: int = if short_of_funds { 6 } else { 5 };
            run_spec(Seq::new(n as nat, |i: int| true), short_of_funds) == FlowStage::Done
        }),
        forall|s: FlowStage, ok: bool|
            is_terminal(s) ==> #[trigger] next_stage_spec(s, ok, short_of_funds) == s,
        forall|s: FlowStage|
            !is_terminal(s) ==> #[trigger] next_stage_spec(s, false, short_of_funds)
                == FlowStage::Failed,
{
    let n: int = if short_of_funds { 6 } else { 5 };
    let all = Seq::new(n as nat, |i: int| true);
    reveal_with_fuel(run_spec, 7);
    assert(all.drop_last() =~= Seq::new((n - 1) as nat, |i: int| true));
    assert(all.drop_last().drop_last() =~= Seq::new((n - 2) as nat, |i: int| true));
    assert(all.drop_last().drop_last().drop_last() =~= Seq::new((n - 3) as nat, |i: int| true));
    assert(all.drop_last().drop_last().drop_last().drop_last() =~= Seq::new(
        (n - 4) as nat,
        |i: int| true,
    ));
    assert(all.drop_last().drop_last().drop_last().drop_last().drop_last() =~= Seq::new(
        (n - 5) as nat,
        |i: int| true,
    ));
    if short_of_funds {
        assert(all.drop_last().drop_last().drop_last().drop_last().drop_last().drop_last()
            =~= Seq::<bool>::empty());
    } else {
        assert(all.drop_last().drop_last().drop_last().drop_last().drop_last()
            =~= Seq::<bool>::empty());
    }
}

} // verus!
