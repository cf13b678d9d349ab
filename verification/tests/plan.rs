use gem::executor::executable::{Executable, ExecutablePosition};
use gem::executor::execution_plan::{Environment, ExecutionItem, ExecutionPlan};
use gem::fenced_attributes::{Attributes, CodeChunk};

const LINE_ENDING: &str = "\n";

fn environment(os: &str) -> Environment {
    Environment {
        os: os.to_string(),
        arch: "x86_64".to_string(),
        linux_distro: None,
        line_ending: LINE_ENDING.to_string(),
    }
}

#[test]
fn indented_code_between_fences() {
    let md = minimad::clean::lines(
        r#"
            outside 1
            ```code {id=code-1}
            a
                b
            ```
            outside 2
            ```code {id=code-2}
            c
                d
            ```
        "#,
    );
    let chunks = ExecutionPlan::from_md_lines(md, &environment("linux"));

    let expected_attribute_1 = Attributes {
        id: Some("code-1".to_string()),
        as_file: true,
        stdout: true,
        allow_warnings: true,
        ..Attributes::default()
    };

    let expected_attribute_2 = Attributes {
        id: Some("code-2".to_string()),
        as_file: true,
        stdout: true,
        allow_warnings: true,
        ..Attributes::default()
    };

    let mut expected_plan = vec![
        ExecutionItem::OutputString("outside 1".to_string()),
        ExecutionItem::OutputCode("a".to_string()),
        ExecutionItem::OutputCode("    b".to_string()),
        ExecutionItem::Execute(Executable::new(
            ExecutablePosition::new(1, 4),
            Some(CodeChunk {
                lang: Some(String::from("code")),
                attributes: expected_attribute_1.clone(),
            }),
            format!("a{}    b{}", LINE_ENDING, LINE_ENDING),
        )),
        ExecutionItem::OutputString("outside 2".to_string()),
        ExecutionItem::OutputCode("c".to_string()),
        ExecutionItem::OutputCode("    d".to_string()),
        ExecutionItem::Execute(Executable::new(
            ExecutablePosition::new(6, 9),
            Some(CodeChunk {
                lang: Some(String::from("code")),
                attributes: expected_attribute_2.clone(),
            }),
            format!("c{}    d{}", LINE_ENDING, LINE_ENDING),
        )),
    ];
    expected_plan.reverse();
    assert_eq!(
        chunks,
        ExecutionPlan {
            plan: expected_plan
        },
    );
}

fn drain(mut plan: ExecutionPlan) -> Vec<ExecutionItem> {
    let mut items = Vec::new();
    while let Some(item) = plan.next() {
        items.push(item);
    }
    assert_eq!(plan.next(), None);
    items
}

fn text(line: &str) -> ExecutionItem {
    ExecutionItem::OutputString(line.to_string())
}

fn text_line(line: &str) -> ExecutionItem {
    text(line)
}

fn code(line: &str) -> ExecutionItem {
    ExecutionItem::OutputCode(line.to_string())
}

#[test]
fn echo_fragment_plan() {
    let plan = ExecutionPlan::from_md_lines(
        vec!["```sh {id=s, cmd=echo, args=[hi]}", "hi", "```"],
        &environment("linux"),
    );
    let items = drain(plan);
    assert_eq!(items.len(), 2);
    assert_eq!(items[0], code("hi"));
    match &items[1] {
        ExecutionItem::Execute(e) => {
            assert_eq!(e.code, "hi\n");
            assert_eq!(e.position, ExecutablePosition::new(0, 2));
            let chunk = e.code_chunk.as_ref().unwrap();
            assert_eq!(chunk.lang, Some("sh".to_string()));
            assert_eq!(chunk.attributes.cmd, Some("echo".to_string()));
            assert_eq!(chunk.attributes.args, Some(vec!["hi".to_string()]));
            assert!(chunk.attributes.stdout);
        }
        other => panic!("not a fragment: {:?}", other),
    }
}

#[test]
fn fragment_for_another_system_is_filtered() {
    let lines = vec!["before", "```sh {id=m, sys=[macos]}", "only on macos", "```", "after"];
    let on_linux = drain(ExecutionPlan::from_md_lines(lines.clone(), &environment("linux")));
    assert_eq!(on_linux, vec![text("before"), code("only on macos"), text("after")]);
    let on_macos = drain(ExecutionPlan::from_md_lines(lines, &environment("macos")));
    assert_eq!(on_macos.len(), 4);
    assert!(matches!(on_macos[2], ExecutionItem::Execute(_)));
}

#[test]
fn unclosed_fence_gives_no_fragment() {
    let lines = vec!["a", "```sh {id=x}", "b", "  c", ""];
    let items = drain(ExecutionPlan::from_md_lines(lines, &environment("linux")));
    assert_eq!(items, vec![text("a"), code("b"), code("  c"), code("")]);
}

#[test]
fn fences_pair_up_in_order() {
    let lines = vec!["```a", "1", "~~~", "t", "~~~b {id=k}", "```", "2", "```"];
    let items = drain(ExecutionPlan::from_md_lines(lines, &environment("linux")));
    assert_eq!(items.len(), 5);
    assert_eq!(items[0], code("1"));
    match &items[1] {
        ExecutionItem::Execute(e) => {
            assert_eq!(e.position, ExecutablePosition::new(0, 2));
            assert_eq!(e.code, "1\n");
            assert_eq!(e.code_chunk.as_ref().unwrap().lang, Some("a".to_string()));
        }
        other => panic!("not a fragment: {:?}", other),
    }
    assert_eq!(items[2], text("t"));
    match &items[3] {
        ExecutionItem::Execute(e) => {
            assert_eq!(e.position, ExecutablePosition::new(4, 5));
            assert_eq!(e.code, "");
            assert_eq!(e.code_chunk.as_ref().unwrap().attributes.id, Some("k".to_string()));
        }
        other => panic!("not a fragment: {:?}", other),
    }
    assert_eq!(items[4], text("2"));
}

#[test]
fn fence_without_language_is_kept_but_not_runnable() {
    let lines = vec!["```", "x", "```"];
    let items = drain(ExecutionPlan::from_md_lines(lines, &environment("linux")));
    assert_eq!(
        items,
        vec![
            code("x"),
            ExecutionItem::Execute(Executable::new(
                ExecutablePosition::new(0, 2),
                None,
                "x\n".to_string()
            )),
        ]
    );
}

#[test]
fn line_ending_of_the_environment_ends_each_code_line() {
    let windows = Environment { line_ending: "\r\n".to_string(), ..environment("windows") };
    let items = drain(ExecutionPlan::from_md_lines(vec!["```", "x", "y", "```"], &windows));
    match &items[2] {
        ExecutionItem::Execute(e) => assert_eq!(e.code, "x\r\ny\r\n"),
        other => panic!("not a fragment: {:?}", other),
    }
}

fn fragment(id: &str, attributes: Attributes) -> ExecutionItem {
    ExecutionItem::Execute(Executable::new(
        ExecutablePosition::new(0, 1),
        Some(CodeChunk {
            lang: Some("sh".to_string()),
            attributes: Attributes { id: Some(id.to_string()), ..attributes },
        }),
        String::new(),
    ))
}

fn list(values: &[&str]) -> Option<Vec<String>> {
    Some(values.iter().map(|v| v.to_string()).collect())
}

#[test]
fn build_filters_by_system_architecture_and_distribution() {
    let lines = vec!["```", "```", "```", "```", "```", "```", "```", "```", "t"];
    let chunk = |attributes: Attributes| {
        Some(CodeChunk { lang: Some("sh".to_string()), attributes })
    };
    let chunks = vec![
        chunk(Attributes { sys: list(&["linux", "macos"]), ..Attributes::default() }),
        None,
        chunk(Attributes { arch: list(&["arm"]), ..Attributes::default() }),
        None,
        chunk(Attributes { linux_distro: list(&["debian"]), ..Attributes::default() }),
        None,
        chunk(Attributes { sys: list(&[]), ..Attributes::default() }),
        None,
        None,
    ];
    let positions = |env: &Environment| -> Vec<usize> {
        drain(ExecutionPlan::build(&lines, &chunks, env))
            .iter()
            .filter_map(|item| match item {
                ExecutionItem::Execute(e) => Some(e.position.start),
                _ => None,
            })
            .collect()
    };
    assert_eq!(positions(&environment("linux")), vec![0]);
    assert_eq!(positions(&environment("windows")), Vec::<usize>::new());
    let arm = Environment { arch: "arm".to_string(), ..environment("macos") };
    assert_eq!(positions(&arm), vec![0, 2]);
    let debian = Environment { linux_distro: Some("debian".to_string()), ..environment("linux") };
    assert_eq!(positions(&debian), vec![0, 4]);
    let ubuntu = Environment { linux_distro: Some("ubuntu".to_string()), ..environment("linux") };
    assert_eq!(positions(&ubuntu), vec![0]);
}

#[test]
fn filtering_twice_changes_nothing() {
    let plan = ExecutionPlan {
        plan: vec![
            text("z"),
            fragment("c", Attributes { sys: list(&["macos"]), ..Attributes::default() }),
            code("y"),
            fragment("b", Attributes { sys: list(&["linux"]), ..Attributes::default() }),
            fragment("a", Attributes::default()),
            text("x"),
        ],
    };
    let env = environment("linux");
    let once = plan.clone().filtered(&env);
    assert_eq!(once.plan.len(), 5);
    let twice = once.clone().filtered(&env);
    assert_eq!(once, twice);
    assert_eq!(drain(once)[0], text("x"));
    assert!(ExecutionPlan::admits(&env, &plan.plan[3]));
    assert!(!ExecutionPlan::admits(&env, &plan.plan[1]));
}

#[test]
fn next_takes_the_earliest_item() {
    let mut plan = ExecutionPlan { plan: vec![text("second"), text("first")] };
    assert_eq!(plan.next(), Some(text("first")));
    assert_eq!(plan.next(), Some(text("second")));
    assert_eq!(plan.next(), None);
    assert_eq!(ExecutionPlan::default().next(), None);
}

#[test]
fn positions() {
    let p = ExecutablePosition::start(3);
    assert_eq!(p, ExecutablePosition { start: 3, end: 0 });
    assert_eq!(p.end(7), ExecutablePosition::new(3, 7));
    assert_eq!(ExecutablePosition::default(), ExecutablePosition::new(0, 0));
    assert_eq!(Executable::default().code, "");
}

#[test]
fn every_pair_gives_a_fragment_and_every_other_line_shows() {
    let lines = vec![
        "# title", "```sh {id=one}", "echo 1", "", "echo 2", "```", "between", "~~~py {id=two}",
        "~~~", "```", "last", "```", "end", "```sh {id=open}", "dangling",
    ];
    let items = drain(ExecutionPlan::from_md_lines(lines.clone(), &environment("linux")));
    let fences = lines.iter().filter(|l| l.starts_with("```") || l.starts_with("~~~")).count();
    assert_eq!(fences, 7);
    let fragments: Vec<&Executable> = items
        .iter()
        .filter_map(|item| match item {
            ExecutionItem::Execute(e) => Some(e),
            _ => None,
        })
        .collect();
    assert_eq!(fragments.len(), fences / 2);
    let shown: Vec<&str> = items
        .iter()
        .filter_map(|item| match item {
            ExecutionItem::OutputString(line) | ExecutionItem::OutputCode(line) => Some(line.as_str()),
            _ => None,
        })
        .collect();
    assert_eq!(shown, vec!["# title", "echo 1", "", "echo 2", "between", "last", "end", "dangling"]);
    for fragment in fragments {
        let ExecutablePosition { start, end } = fragment.position;
        assert!(start < end);
        let between: Vec<&str> = lines[start + 1..end].to_vec();
        let read_back: Vec<&str> = fragment.code.split_terminator(LINE_ENDING).collect();
        assert_eq!(read_back, between);
        let joined: String = between.iter().map(|l| format!("{}{}", l, LINE_ENDING)).collect();
        assert_eq!(fragment.code, joined);
    }
    assert_eq!(items.last(), Some(&code("dangling")));
}

#[test]
fn plan_of_a_text() {
    let text = r#"
        outside
        ```sh {id=one}
        echo 1
            indented
        ```
        after
    "#;
    let plan = ExecutionPlan::from_text(text, &environment("linux"));
    assert_eq!(plan, ExecutionPlan::from_md_lines(minimad::clean::lines(text), &environment("linux")));
    let items = drain(plan);
    assert_eq!(items.len(), 5);
    assert_eq!(items[0], text_line("outside"));
    assert_eq!(items[1], code("echo 1"));
    assert_eq!(items[2], code("    indented"));
    match &items[3] {
        ExecutionItem::Execute(e) => {
            assert_eq!(e.position, ExecutablePosition::new(1, 4));
            assert_eq!(e.code, "echo 1\n    indented\n");
        }
        other => panic!("not a fragment: {:?}", other),
    }
    assert_eq!(items[4], text_line("after"));
}

#[test]
fn plan_of_a_multi_line_string() {
    let md = "first\r\n```sh {id=one}\n  echo 1\r\n\n```\nlast\r";
    let plan = ExecutionPlan::from_md(md, &environment("linux"));
    assert_eq!(plan, ExecutionPlan::from_md_lines(md.lines().collect(), &environment("linux")));
    let items = drain(plan);
    assert_eq!(items.len(), 5);
    assert_eq!(items[0], text_line("first"));
    assert_eq!(items[1], code("  echo 1"));
    assert_eq!(items[2], code(""));
    assert!(matches!(items[3], ExecutionItem::Execute(_)));
    assert_eq!(items[4], text_line("last\r"));
    assert_eq!(drain(ExecutionPlan::from_md("", &environment("linux"))), vec![]);
}

#[test]
fn broken_block_runs_with_the_defaults() {
    let lines = vec!["```sh {cmd=${x}}", "echo", "```"];
    let items = drain(ExecutionPlan::from_md_lines(lines, &environment("linux")));
    match &items[1] {
        ExecutionItem::Execute(e) => {
            let attributes = &e.code_chunk.as_ref().unwrap().attributes;
            assert_eq!(attributes.id.as_ref().unwrap().len(), 36);
            assert_eq!(attributes.cmd, None);
            assert_eq!((attributes.as_file, attributes.stdout, attributes.allow_warnings), (true, true, true));
            assert_eq!((attributes.allow_errors, attributes.with_sudo), (false, false));
        }
        other => panic!("not a fragment: {:?}", other),
    }
}
