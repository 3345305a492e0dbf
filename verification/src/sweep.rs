//! The sweep itself: a configuration, the generation loop over the numeric
//! range, and the assembly of the blocks into one output text.

use vstd::prelude::*;
use crate::scenario::{scenario_text, render_scenario};

verus! {

/// The parameters of one sweep: a floor, a ceiling, a step, and the build
/// task substituted into every scenario.
pub struct SweepConfig {
    pub min: u8,
    pub max: u8,
    pub step: u8,
    pub task: String,
}

impl SweepConfig {
    /// A configuration is well formed when its step is positive, so that the
    /// sweep cursor advances and the sweep terminates.
    pub open spec fn well_formed(self) -> bool {
        self.step >= 1
    }

    /// Builds a sweep configuration. A zero step is rejected as a
    /// configuration error: the cursor would never advance.
    pub fn new(min: u8, max: u8, step: u8, task: String) -> (r: Option<SweepConfig>)
        ensures
            step == 0 <==> r is None,
            r matches Some(c) ==> c.min == min && c.max == max && c.step == step
                && c.task@ == task@ && c.well_formed(),
    {
        if step == 0 {
            None
        } else {
            Some(SweepConfig { min, max, step, task })
        }
    }
}

/// How many scenarios a sweep generates: none when `min > max`, else
/// `(max - min) / step + 1`.
pub open spec fn scenario_count(min: nat, max: nat, step: nat) -> nat
    recommends
        step >= 1,
{
    if min > max {
        0
    } else {
        ((max - min) / (step as int) + 1) as nat
    }
}

/// The sweep cursor value of the scenario at position `i`: the floor plus
/// `i` steps.
pub open spec fn cursor_at(min: nat, step: nat, i: int) -> nat {
    (min + i * step) as nat
}

/// The ordered sequence of rendered scenario texts of a sweep.
pub open spec fn scenario_texts(task: Seq<char>, min: nat, max: nat, step: nat) -> Seq<
    Seq<char>,
> {
    Seq::new(
        scenario_count(min, max, step),
        |i: int| scenario_text(task, cursor_at(min, step, i), min),
    )
}

/// Blocks joined with a single newline between consecutive entries, and no
/// trailing separator.
pub open spec fn joined(blocks: Seq<Seq<char>>) -> Seq<char>
    decreases blocks.len(),
{
    if blocks.len() == 0 {
        Seq::empty()
    } else if blocks.len() == 1 {
        blocks[0]
    } else {
        joined(blocks.drop_last()) + "\n"@ + blocks.last()
    }
}

/// The full output text of a sweep: its scenario blocks joined by newlines.
pub open spec fn sweep_output(task: Seq<char>, min: nat, max: nat, step: nat) -> Seq<char> {
    joined(scenario_texts(task, min, max, step))
}

/// Renders one scenario block per value of the arithmetic sequence
/// `min, min + step, min + 2 * step, ...` while the value stays at or below
/// `max`, in that order.
pub fn generate_scenarios(config: &SweepConfig) -> (scenarios: Vec<String>)
    requires
        config.well_formed(),
    ensures
        scenarios@.len() == scenario_count(
            config.min as nat,
            config.max as nat,
            config.step as nat,
        ),
        forall|i: int|
            0 <= i < scenarios@.len() ==> scenarios@[i]@ == scenario_text(
                config.task@,
                cursor_at(config.min as nat, config.step as nat, i),
                config.min as nat,
            ),
{
    let mut scenarios: Vec<String> = Vec::new();
    let mut cursor: u32 = config.min as u32;
    while cursor <= config.max as u32
        invariant
            config.well_formed(),
            cursor == config.min + scenarios@.len() * config.step,
            scenarios@.len() == 0 || config.min + (scenarios@.len() - 1) * config.step
                <= config.max,
            forall|i: int|
                0 <= i < scenarios@.len() ==> scenarios@[i]@ == scenario_text(
                    config.task@,
                    cursor_at(config.min as nat, config.step as nat, i),
                    config.min as nat,
                ),
        decreases config.max as int + config.step as int - cursor as int,
    {
        let block = render_scenario(config.task.as_str(), cursor as u8, config.min);
        scenarios.push(block);
        proof {
            let n = scenarios@.len() as int;
            assert(n * config.step == (n - 1) * config.step + config.step) by (nonlinear_arith);
        }
        cursor = cursor + config.step as u32;
    }
    proof {
        let min = config.min as int;
        let max = config.max as int;
        let step = config.step as int;
        let n = scenarios@.len() as int;
        if n == 0 {
            assert(cursor == min);
        } else {
            assert(n * step == (n - 1) * step + step) by (nonlinear_arith);
            let r = (max - min) - (n - 1) * step;
            assert(0 <= r < step);
            vstd::arithmetic::div_mod::lemma_fundamental_div_mod_converse(
                max - min,
                step,
                n - 1,
                r,
            );
        }
    }
    scenarios
}

/// Joins the rendered blocks with a single newline between consecutive
/// entries, adding nothing before the first block or after the last.
pub fn join_blocks(blocks: &Vec<String>) -> (out: String)
    ensures
        out@ == joined(blocks@.map_values(|b: String| b@)),
{
    let ghost m = blocks@.map_values(|b: String| b@);
    let mut out = String::new();
    let mut i: usize = 0;
    while i < blocks.len()
        invariant
            m == blocks@.map_values(|b: String| b@),
            i <= blocks@.len(),
            out@ == joined(m.take(i as int)),
        decreases blocks@.len() - i,
    {
        if i > 0 {
            out.append("\n");
        }
        out.append(blocks[i].as_str());
        proof {
            let j = i as int;
            assert(m.take(j + 1).drop_last() =~= m.take(j));
            assert(m.take(j + 1).last() == m[j]);
            assert(out@ =~= joined(m.take(j + 1)));
        }
        i = i + 1;
    }
    proof {
        assert(m.take(m.len() as int) =~= m);
    }
    out
}

/// Runs the whole sweep: renders every scenario in order and joins the
/// blocks into the output text.
pub fn generate_output(config: &SweepConfig) -> (out: String)
    requires
        config.well_formed(),
    ensures
        out@ == sweep_output(config.task@, config.min as nat, config.max as nat, config.step as nat),
{
    let blocks = generate_scenarios(config);
    let out = join_blocks(&blocks);
    proof {
        assert(blocks@.map_values(|b: String| b@) =~= scenario_texts(
            config.task@,
            config.min as nat,
            config.max as nat,
            config.step as nat,
        ));
    }
    out
}

/// Law: for a well-formed sweep with `min <= max`, the number of generated
/// scenarios is exactly `(max - min) / step + 1`.
pub proof fn lemma_scenario_count(min: nat, max: nat, step: nat)
    requires
        step >= 1,
        min <= max,
    ensures
        scenario_count(min, max, step) == (max - min) / (step as int) + 1,
{
}

/// Law: when `min > max` the sweep generates no scenario and its output text
/// is empty.
pub proof fn lemma_empty_sweep(task: Seq<char>, min: nat, max: nat, step: nat)
    requires
        min > max,
    ensures
        scenario_texts(task, min, max, step).len() == 0,
        sweep_output(task, min, max, step) == Seq::<char>::empty(),
{
}

/// Law: the sweep is deterministic. Two output texts produced from identical
/// inputs are identical, byte for byte.
pub proof fn lemma_output_deterministic(
    task: Seq<char>,
    min: nat,
    max: nat,
    step: nat,
    first: Seq<char>,
    second: Seq<char>,
)
    requires
        first == sweep_output(task, min, max, step),
        second == sweep_output(task, min, max, step),
    ensures
        first == second,
{
}

} // verus!
