use trace_demo::workflow::{
    demo_script, is_well_nested, Action, Message, Runner, SpanName, Step,
};

fn drain(mut runner: Runner) -> Vec<Action> {
    let mut out = Vec::new();
    while let Some(a) = runner.next_action() {
        out.push(a);
    }
    assert!(runner.is_finished());
    out
}

#[test]
fn demo_actions_in_order() {
    let expected = vec![
        Action::Open(SpanName::Test),
        Action::Open(SpanName::DoSomething),
        Action::Log(Message::TraceBbb),
        Action::Open(SpanName::Aaa),
        Action::Open(SpanName::Bbb),
        Action::Sleep(500),
        Action::Close(SpanName::Bbb),
        Action::Log(Message::TraceBbb),
        Action::Open(SpanName::Ccc),
        Action::Open(SpanName::Ddd),
        Action::Sleep(250),
        Action::Close(SpanName::Ddd),
        Action::Log(Message::TraceCcc),
        Action::Open(SpanName::Eee),
        Action::Sleep(250),
        Action::Close(SpanName::Eee),
        Action::Close(SpanName::Ccc),
        Action::Close(SpanName::Aaa),
        Action::Open(SpanName::Fff),
        Action::Sleep(250),
        Action::Close(SpanName::Fff),
        Action::Close(SpanName::DoSomething),
        Action::Close(SpanName::Test),
    ];
    assert_eq!(drain(Runner::demo()), expected);
}

#[test]
fn demo_waits_total() {
    let total: u64 = drain(Runner::demo())
        .iter()
        .map(|a| match a {
            Action::Sleep(ms) => *ms,
            _ => 0,
        })
        .sum();
    assert_eq!(total, 1250);
}

#[test]
fn demo_script_is_well_nested() {
    assert!(is_well_nested(&demo_script()));
    assert_eq!(demo_script().len(), 23);
}

#[test]
fn empty_plan_is_well_nested() {
    assert!(is_well_nested(&Vec::new()));
    let mut r = Runner::new(Vec::new()).unwrap();
    assert!(r.is_finished());
    assert_eq!(r.next_action(), None);
}

#[test]
fn close_without_open_is_rejected() {
    let steps = vec![Step::Close];
    assert!(!is_well_nested(&steps));
    assert!(Runner::new(steps).is_none());
    let steps = vec![Step::Open(SpanName::Aaa), Step::Close, Step::Close];
    assert!(!is_well_nested(&steps));
    assert!(Runner::new(steps).is_none());
}

#[test]
fn unclosed_span_is_rejected() {
    let steps = vec![Step::Open(SpanName::Aaa), Step::Sleep(1)];
    assert!(!is_well_nested(&steps));
    assert!(Runner::new(steps).is_none());
}

#[test]
fn close_names_innermost_span() {
    let steps = vec![
        Step::Open(SpanName::Aaa),
        Step::Open(SpanName::Bbb),
        Step::Log(Message::TraceCcc),
        Step::Close,
        Step::Close,
    ];
    let r = Runner::new(steps).unwrap();
    assert_eq!(
        drain(r),
        vec![
            Action::Open(SpanName::Aaa),
            Action::Open(SpanName::Bbb),
            Action::Log(Message::TraceCcc),
            Action::Close(SpanName::Bbb),
            Action::Close(SpanName::Aaa),
        ]
    );
}

#[test]
fn finished_runner_stays_finished() {
    let mut r = Runner::new(vec![Step::Sleep(7)]).unwrap();
    assert!(!r.is_finished());
    assert_eq!(r.next_action(), Some(Action::Sleep(7)));
    assert!(r.is_finished());
    assert_eq!(r.next_action(), None);
    assert_eq!(r.next_action(), None);
}
