use workon::domain::CreatedWork;
use workon::output::{render_output, CommandOutput};
use workon::storage::{parse_work, split_lines};

#[test]
fn created_work_lists_its_files() {
    let created = CreatedWork {
        title: "Billing".to_string(),
        slug: "billing".to_string(),
        goal: "Investigate billing".to_string(),
        intent_id: "investigate".to_string(),
        path: "/tmp/workon/.workon/work/billing".to_string(),
        instruction_files: vec!["notes.md".to_string(), "plan.md".to_string()],
    };
    let rendered = render_output(&CommandOutput::WorkCreated(created), false, false, "/tmp/workon");
    assert_eq!(
        rendered.text,
        "work created: Billing\nintent: investigate\nslug: billing\nfolder created: /tmp/workon/.workon/work/billing\nfiles: notes.md, plan.md\nnext: work from the folder\n"
    );
}

#[test]
fn a_last_line_without_newline_keeps_its_carriage_return() {
    let rows: Vec<String> = split_lines("a\r\nb\r").into_iter().map(|l| l.into_iter().collect()).collect();
    assert_eq!(rows, vec!["a".to_string(), "b\r".to_string()]);
    let parsed = parse_work("title=Billing\r\nslug=billing\r", "/tmp/w".to_string());
    assert_eq!(parsed.title, "Billing");
    assert_eq!(parsed.slug, "billing\r");
}
