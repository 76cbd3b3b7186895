use serde_json::Value;
use voipswitchd::cli::{
    command_words, is_interactive, next_prompt, read_command, render_response, render_table,
    render_value, request_id, CommandError, CommandRenderData, CommandResponse, CommandResult,
};

fn response(data: Option<CommandRenderData>) -> CommandResponse {
    CommandResponse {
        ok: true,
        error: None,
        result: data.map(|data| CommandResult {
            data,
            warnings: vec!["careful".to_string()],
        }),
        prompt: None,
        exit: false,
    }
}

fn texts(list: &[&str]) -> Vec<String> {
    list.iter().map(|text| text.to_string()).collect()
}

#[test]
fn values_are_shown_plainly() {
    assert_eq!(render_value(&Value::Null), "");
    assert_eq!(render_value(&Value::from("a \"b\"")), "a \"b\"");
    assert_eq!(render_value(&Value::from(true)), "true");
    assert_eq!(render_value(&Value::from(12)), "12");
    assert_eq!(
        render_value(&Value::from(vec![Value::from(1), Value::from("x")])),
        "[1,\"x\"]"
    );
}

#[test]
fn table_is_aligned() {
    let lines = render_table(
        &texts(&["id", "name"]),
        &vec![texts(&["1", "alice"]), texts(&["200", "b"])],
    );
    assert_eq!(
        lines,
        texts(&["id   name ", "---  -----", "1    alice", "200  b    "])
    );
}

#[test]
fn width_is_counted_in_bytes_and_filled_in_characters() {
    let lines = render_table(&texts(&["n"]), &vec![texts(&["\u{e9}\u{e9}"])]);
    assert_eq!(lines[0], "n   ");
    assert_eq!(lines[1], "----");
    assert_eq!(lines[2], "\u{e9}\u{e9}  ");
}

#[test]
fn surplus_cells_are_shown_as_they_are() {
    let lines = render_table(&texts(&["a"]), &vec![texts(&["x", "more"])]);
    assert_eq!(lines[2], "x  more");
}

#[test]
fn data_is_shown_by_its_shape() {
    let lines = |data| render_response(&response(Some(data))).ok().unwrap().lines;
    assert_eq!(
        lines(CommandRenderData::TextLines {
            lines: texts(&["one", "two"])
        }),
        texts(&["one", "two"])
    );
    assert_eq!(
        lines(CommandRenderData::Kv {
            items: vec![
                ("calls".to_string(), Value::from(3)),
                ("peer".to_string(), Value::Null),
            ]
        }),
        texts(&["calls: 3", "peer: "])
    );
    assert_eq!(
        lines(CommandRenderData::Table {
            columns: texts(&["id"]),
            rows: vec![vec![Value::from(10)]],
        }),
        texts(&["id", "--", "10"])
    );
    assert_eq!(
        lines(CommandRenderData::Object {
            value: Value::from(vec![1, 2])
        }),
        texts(&["[\n  1,\n  2\n]"])
    );
}

#[test]
fn answers_without_data_and_failures() {
    let shown = render_response(&response(None)).ok().unwrap();
    assert_eq!(shown.lines, texts(&["ok"]));
    assert!(shown.warnings.is_empty());

    let mut failed = response(None);
    failed.ok = false;
    assert_eq!(render_response(&failed).err().unwrap(), "command failed");
    failed.error = Some(CommandError {
        code: "NOT_FOUND".to_string(),
        message: "no such call".to_string(),
    });
    assert_eq!(
        render_response(&failed).err().unwrap(),
        "NOT_FOUND: no such call"
    );
}

#[test]
fn warnings_come_with_the_data() {
    let shown = render_response(&response(Some(CommandRenderData::TextLines {
        lines: Vec::new(),
    })))
    .ok()
    .unwrap();
    assert_eq!(shown.warnings, texts(&["careful"]));
}

#[test]
fn command_comes_from_the_line_or_the_arguments() {
    let arguments = texts(&["call", "list"]);
    assert_eq!(
        command_words(&Some("  call   show 7 ".to_string()), &arguments),
        texts(&["call", "show", "7"])
    );
    assert_eq!(command_words(&None, &arguments), arguments);
    assert!(is_interactive(&None, &Vec::new(), false));
    assert!(!is_interactive(&None, &Vec::new(), true));
    assert!(!is_interactive(&None, &arguments, false));
    assert_eq!(read_command("  \t "), None);
    assert_eq!(read_command(" status \n").as_deref(), Some("status"));
    assert_eq!(request_id(12), "cli-12");
}

#[test]
fn prompt_changes_with_the_answer() {
    let mut answer = response(None);
    assert_eq!(next_prompt("a> ".to_string(), &answer), "a> ");
    answer.prompt = Some("b> ".to_string());
    assert_eq!(next_prompt("a> ".to_string(), &answer), "b> ");
}
