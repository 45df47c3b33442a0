use aipa::repair::{collect_fix, prompt_for_fix, FixCollector, RepairError};
use aipa::task::Task;

fn lines(raw: &[&str]) -> Vec<String> {
    raw.iter().map(|s| s.to_string()).collect()
}

#[test]
fn fix_is_closed_by_a_blank_line_after_content() {
    let r = collect_fix(&lines(&["print('hi')\n", "\n"]));
    assert_eq!(r, Ok("print('hi')".to_string()));
}

#[test]
fn fix_keeps_lines_in_order() {
    let r = collect_fix(&lines(&["fn main() {\n", "    println!(\"x\");\n", "}\n", "\n", "rest\n"]));
    assert_eq!(r, Ok("fn main() {\nprintln!(\"x\");\n}".to_string()));
}

#[test]
fn blank_lines_alone_never_close() {
    assert_eq!(collect_fix(&lines(&["\n", "\n", "   \n", "\t\n"])), Err(RepairError::InputClosed));
    assert_eq!(collect_fix(&lines(&[""])), Err(RepairError::InputClosed));
    assert_eq!(collect_fix(&Vec::new()), Err(RepairError::InputClosed));
}

#[test]
fn leading_blank_lines_are_passed_over() {
    let r = collect_fix(&lines(&["\n", "  \n", "x = 1\n", "\n"]));
    assert_eq!(r, Ok("x = 1".to_string()));
}

#[test]
fn input_that_ends_before_a_blank_line_gives_no_fix() {
    assert_eq!(collect_fix(&lines(&["x = 1\n", "y = 2\n"])), Err(RepairError::InputClosed));
    assert_eq!(
        RepairError::InputClosed.message(),
        "Input closed before the fix was complete"
    );
}

#[test]
fn prompt_decoration_is_dropped() {
    let r = collect_fix(&lines(&[
        ">\n",
        "Enter fixed code below (press Enter twice on a blank line to submit):\n",
        "> print(1)\n",
        ">print(2)\n",
        "> > >>print(3)\n",
        "\n",
    ]));
    assert_eq!(r, Ok("print(1)\nprint(2)\nprint(3)".to_string()));
}

#[test]
fn decoration_alone_is_no_content() {
    assert_eq!(collect_fix(&lines(&[">\n", "\n", "> >\n", "\n"])), Err(RepairError::InputClosed));
    let r = collect_fix(&lines(&["> >\n", "\n", "x\n", "\n"]));
    assert_eq!(r, Ok("x".to_string()));
}

#[test]
fn markers_inside_a_line_stay() {
    let r = collect_fix(&lines(&["a > b\n", "x >\n", "\n"]));
    assert_eq!(r, Ok("a > b\nx >".to_string()));
}

#[test]
fn collector_takes_lines_one_by_one() {
    let mut c = FixCollector::new();
    assert_eq!(c.text, "");
    assert!(!c.feed("\n"));
    assert_eq!(c.text, "");
    assert!(!c.feed("  let x = 1;  \n"));
    assert_eq!(c.text, "let x = 1;\n");
    assert!(!c.feed("> let y = 2;"));
    assert_eq!(c.text, "let x = 1;\nlet y = 2;\n");
    assert!(!c.feed(">"));
    assert_eq!(c.text, "let x = 1;\nlet y = 2;\n");
    assert!(!c.feed("Enter fixed code"));
    assert_eq!(c.text, "let x = 1;\nlet y = 2;\n");
    assert!(c.feed("   "));
    assert_eq!(c.text, "let x = 1;\nlet y = 2;\n");
    assert_eq!(c.finish(), "let x = 1;\nlet y = 2;");
}

#[test]
fn prompt_shows_task_source_and_error() {
    let t = Task::new("python".to_string(), "print hello".to_string());
    let p = prompt_for_fix(&t, "print('x'", "SyntaxError");
    assert_eq!(
        p,
        "Task: print hello in python\nOriginal code:\nprint('x'\nError: SyntaxError\nEnter fixed code below (press Enter twice on a blank line to submit):\n"
    );
}
