//! The fixed scenario template and its renderer.
//!
//! A scenario block names a build task and carries a title, a one-entry task
//! list, and a pair of JVM heap-size arguments derived from the sweep cursor
//! and the sweep floor.

use vstd::prelude::*;
use crate::decimal::{dec_chars, u8_to_decimal};

verus! {

/// A JVM maximum-heap argument for a value in gigabytes: "-Xmx<v>g".
pub open spec fn xmx_arg(v: nat) -> Seq<char> {
    "-Xmx"@ + dec_chars(v) + "g"@
}

/// The title of one scenario: "<task>-Xmx:<cursor>-Xms:<min>". The "Xmx"
/// label carries the per-step cursor value; the "Xms" label always carries
/// the sweep floor.
pub open spec fn scenario_title(task: Seq<char>, cursor: nat, min: nat) -> Seq<char> {
    task + "-Xmx:"@ + dec_chars(cursor) + "-Xms:"@ + dec_chars(min)
}

/// The `tasks` list of one scenario: exactly the configured task name.
pub open spec fn tasks_list(task: Seq<char>) -> Seq<Seq<char>> {
    seq![task]
}

/// The `jvm-args` list of one scenario. Both entries use the "-Xmx" flag
/// spelling: the first carries the cursor value, the second the sweep floor.
pub open spec fn jvm_args(cursor: nat, min: nat) -> Seq<Seq<char>> {
    seq![xmx_arg(cursor), xmx_arg(min)]
}

/// Everything of a scenario block that precedes the first `jvm-args` entry.
pub open spec fn before_jvm_args(task: Seq<char>, cursor: nat, min: nat) -> Seq<char> {
    "\n"@ + task + " {\n    title = \""@ + scenario_title(task, cursor, min)
        + "\"\n    tasks = [\""@ + tasks_list(task)[0] + "\"]\n    jvm-args = [\""@
}

/// One rendered scenario block: the task name heads the block, and the body
/// holds the title, the task list, and the two heap-size arguments.
pub open spec fn scenario_text(task: Seq<char>, cursor: nat, min: nat) -> Seq<char> {
    before_jvm_args(task, cursor, min) + jvm_args(cursor, min)[0] + "\", \""@
        + jvm_args(cursor, min)[1] + "\"]\n}\n"@
}

/// Renders one scenario block for the given task name, sweep cursor value,
/// and sweep floor.
pub fn render_scenario(task: &str, cursor: u8, min: u8) -> (out: String)
    ensures
        out@ == scenario_text(task@, cursor as nat, min as nat),
{
    let cursor_dec = u8_to_decimal(cursor);
    let min_dec = u8_to_decimal(min);
    let mut out = String::new();
    out.append("\n");
    out.append(task);
    out.append(" {\n    title = \"");
    out.append(task);
    out.append("-Xmx:");
    out.append(cursor_dec.as_str());
    out.append("-Xms:");
    out.append(min_dec.as_str());
    out.append("\"\n    tasks = [\"");
    out.append(task);
    out.append("\"]\n    jvm-args = [\"");
    out.append("-Xmx");
    out.append(cursor_dec.as_str());
    out.append("g");
    out.append("\", \"");
    out.append("-Xmx");
    out.append(min_dec.as_str());
    out.append("g");
    out.append("\"]\n}\n");
    proof {
        assert(out@ =~= scenario_text(task@, cursor as nat, min as nat));
    }
    out
}

/// Law: in every scenario the first `jvm-args` entry is "-Xmx<cursor>g" for
/// that step's cursor value and the second is "-Xmx<min>g" for the sweep
/// floor, and the block's text is exactly the part before them, the two
/// entries, and the closing text around them.
pub proof fn lemma_jvm_args_shape(task: Seq<char>, cursor: nat, min: nat)
    ensures
        jvm_args(cursor, min).len() == 2,
        jvm_args(cursor, min)[0] == "-Xmx"@ + dec_chars(cursor) + "g"@,
        jvm_args(cursor, min)[1] == "-Xmx"@ + dec_chars(min) + "g"@,
        scenario_text(task, cursor, min) == before_jvm_args(task, cursor, min)
            + ("-Xmx"@ + dec_chars(cursor) + "g"@) + "\", \""@
            + ("-Xmx"@ + dec_chars(min) + "g"@) + "\"]\n}\n"@,
{
    assert(scenario_text(task, cursor, min) =~= before_jvm_args(task, cursor, min)
        + ("-Xmx"@ + dec_chars(cursor) + "g"@) + "\", \""@
        + ("-Xmx"@ + dec_chars(min) + "g"@) + "\"]\n}\n"@);
}

/// Law: the task name appears verbatim in every scenario: as the block name
/// right after the leading newline, at the start of the title, and as the
/// single entry of the `tasks` list.
pub proof fn lemma_task_verbatim(task: Seq<char>, cursor: nat, min: nat)
    ensures
        scenario_text(task, cursor, min).subrange(1, 1 + task.len() as int) == task,
        scenario_title(task, cursor, min).subrange(0, task.len() as int) == task,
        tasks_list(task) == seq![task],
{
    reveal_strlit("\n");
    assert(scenario_text(task, cursor, min).subrange(1, 1 + task.len() as int) =~= task);
    assert(scenario_title(task, cursor, min).subrange(0, task.len() as int) =~= task);
}

} // verus!
