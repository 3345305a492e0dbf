use profiler_director::decimal::u8_to_decimal;
use profiler_director::scenario::render_scenario;
use profiler_director::sweep::{generate_output, generate_scenarios, SweepConfig};

fn block(task: &str, cursor: u8, min: u8) -> String {
    format!(
        "\n{task} {{\n    title = \"{task}-Xmx:{cursor}-Xms:{min}\"\n    tasks = [\"{task}\"]\n    jvm-args = [\"-Xmx{cursor}g\", \"-Xmx{min}g\"]\n}}\n"
    )
}

fn config(min: u8, max: u8, step: u8, task: &str) -> SweepConfig {
    SweepConfig::new(min, max, step, task.to_string()).unwrap()
}

#[test]
fn decimal_text_of_bytes() {
    assert_eq!(u8_to_decimal(0), "0");
    assert_eq!(u8_to_decimal(7), "7");
    assert_eq!(u8_to_decimal(10), "10");
    assert_eq!(u8_to_decimal(42), "42");
    assert_eq!(u8_to_decimal(100), "100");
    assert_eq!(u8_to_decimal(255), "255");
}

#[test]
fn zero_step_is_rejected() {
    assert!(SweepConfig::new(2, 8, 0, "assembleRelease".to_string()).is_none());
    assert!(SweepConfig::new(2, 8, 1, "assembleRelease".to_string()).is_some());
}

#[test]
fn rendered_block_text() {
    let out = render_scenario("assembleRelease", 3, 2);
    assert_eq!(
        out,
        "\nassembleRelease {\n    title = \"assembleRelease-Xmx:3-Xms:2\"\n    tasks = [\"assembleRelease\"]\n    jvm-args = [\"-Xmx3g\", \"-Xmx2g\"]\n}\n"
    );
    assert_eq!(out, block("assembleRelease", 3, 2));
}

#[test]
fn sweep_two_to_four() {
    let c = config(2, 4, 1, "assembleRelease");
    let scenarios = generate_scenarios(&c);
    assert_eq!(scenarios.len(), 3);
    assert_eq!(scenarios[0], block("assembleRelease", 2, 2));
    assert_eq!(scenarios[1], block("assembleRelease", 3, 2));
    assert_eq!(scenarios[2], block("assembleRelease", 4, 2));
    for (i, s) in scenarios.iter().enumerate() {
        let cursor = 2 + i as u8;
        assert!(s.contains(&format!("title = \"assembleRelease-Xmx:{cursor}-Xms:2\"")));
    }
    let out = generate_output(&c);
    let expected = format!(
        "{}\n{}\n{}",
        block("assembleRelease", 2, 2),
        block("assembleRelease", 3, 2),
        block("assembleRelease", 4, 2)
    );
    assert_eq!(out, expected);
}

#[test]
fn sweep_single_value() {
    let c = config(5, 5, 1, "assembleRelease");
    let scenarios = generate_scenarios(&c);
    assert_eq!(scenarios.len(), 1);
    assert_eq!(scenarios[0], block("assembleRelease", 5, 5));
    assert_eq!(generate_output(&c), block("assembleRelease", 5, 5));
}

#[test]
fn sweep_floor_above_ceiling_is_empty() {
    let c = config(6, 2, 1, "assembleRelease");
    assert_eq!(generate_scenarios(&c).len(), 0);
    assert_eq!(generate_output(&c), "");
}

#[test]
fn scenario_count_formula() {
    let cases: [(u8, u8, u8); 5] = [(2, 8, 1), (2, 8, 3), (0, 255, 1), (3, 9, 2), (7, 7, 5)];
    for (min, max, step) in cases {
        let c = config(min, max, step, "assembleRelease");
        let expected = (max as usize - min as usize) / step as usize + 1;
        assert_eq!(generate_scenarios(&c).len(), expected);
    }
}

#[test]
fn stepped_sweep_cursor_values() {
    let c = config(2, 8, 3, "assembleRelease");
    let scenarios = generate_scenarios(&c);
    assert_eq!(scenarios.len(), 3);
    assert_eq!(scenarios[0], block("assembleRelease", 2, 2));
    assert_eq!(scenarios[1], block("assembleRelease", 5, 2));
    assert_eq!(scenarios[2], block("assembleRelease", 8, 2));
}

#[test]
fn jvm_args_use_cursor_then_floor() {
    let c = config(3, 5, 1, "check");
    let scenarios = generate_scenarios(&c);
    assert_eq!(scenarios.len(), 3);
    for (i, s) in scenarios.iter().enumerate() {
        let cursor = 3 + i as u8;
        assert!(s.contains(&format!("jvm-args = [\"-Xmx{cursor}g\", \"-Xmx3g\"]")));
    }
}

#[test]
fn task_name_appears_verbatim() {
    let task = "connectedDebugAndroidTest";
    let c = config(4, 4, 1, task);
    let out = generate_output(&c);
    assert!(out.starts_with(&format!("\n{task} {{\n")));
    assert!(out.contains(&format!("title = \"{task}-Xmx:4-Xms:4\"")));
    assert!(out.contains(&format!("tasks = [\"{task}\"]")));
}

#[test]
fn output_is_deterministic() {
    let c1 = config(2, 8, 1, "assembleRelease");
    let c2 = config(2, 8, 1, "assembleRelease");
    let first = generate_output(&c1);
    let second = generate_output(&c2);
    assert_eq!(first, second);
    assert_eq!(first.as_bytes(), second.as_bytes());
}

#[test]
fn default_option_values_sweep() {
    let c = config(2, 8, 1, "assembleRelease");
    let scenarios = generate_scenarios(&c);
    assert_eq!(scenarios.len(), 7);
    assert_eq!(scenarios[6], block("assembleRelease", 8, 2));
}

#[test]
fn largest_range_sweep() {
    let c = config(0, 255, 255, "assembleRelease");
    let scenarios = generate_scenarios(&c);
    assert_eq!(scenarios.len(), 2);
    assert_eq!(scenarios[0], block("assembleRelease", 0, 0));
    assert_eq!(scenarios[1], block("assembleRelease", 255, 0));
}
