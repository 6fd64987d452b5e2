use fidget::{
    delivery, fidget_and_widget, Disconnected, Drained, FidgetMessage, ProgressStatus,
    ProgressToken, WorkDoneProgress, WorkDoneProgressEnd, WorkDoneProgressReport,
};

fn token(name: &str) -> ProgressToken {
    ProgressToken::String(name.to_string())
}

fn report(message: &str) -> WorkDoneProgress {
    WorkDoneProgress::Report(WorkDoneProgressReport {
        message: Some(message.to_string()),
        percentage: None,
    })
}

#[test]
fn handle_reports_success_while_the_widget_lives() {
    let (mut fidget, _widget) = fidget_and_widget();
    assert_eq!(fidget.create(1, token("a")), Ok(()));
    assert_eq!(fidget.update(1, token("a"), report("x")), Ok(()));
    assert_eq!(fidget.end_progress(1, token("a"), WorkDoneProgressEnd { message: None }), Ok(()));
}

#[test]
fn handle_gives_the_event_back_once_the_widget_is_gone() {
    let (mut fidget, widget) = fidget_and_widget();
    drop(widget);
    assert_eq!(
        fidget.create(1, token("a")),
        Err(Disconnected(FidgetMessage {
            id: 1,
            token: token("a"),
            progress: ProgressStatus::Created,
        }))
    );
    assert_eq!(
        fidget.update(2, ProgressToken::Number(9), report("x")),
        Err(Disconnected(FidgetMessage {
            id: 2,
            token: ProgressToken::Number(9),
            progress: ProgressStatus::Started(report("x")),
        }))
    );
    assert_eq!(
        fidget.end_progress(
            3,
            token("c"),
            WorkDoneProgressEnd { message: Some("bye".to_string()) }
        ),
        Err(Disconnected(FidgetMessage {
            id: 3,
            token: token("c"),
            progress: ProgressStatus::Started(WorkDoneProgress::End(WorkDoneProgressEnd {
                message: Some("bye".to_string()),
            })),
        }))
    );
}

#[test]
fn a_clone_fails_like_its_original_once_the_widget_is_gone() {
    let (mut fidget, widget) = fidget_and_widget();
    let mut other = fidget.clone();
    assert_eq!(other.create(1, token("a")), Ok(()));
    drop(widget);
    assert!(fidget.create(1, token("b")).is_err());
    assert!(other.create(1, token("c")).is_err());
}

#[test]
fn delivery_tells_success_from_failure() {
    assert_eq!(delivery(Ok(())), Ok(()));
    let lost = FidgetMessage::created(1, token("a"));
    assert_eq!(delivery(Err(lost.clone())), Err(Disconnected(lost)));
}

#[test]
fn messages_are_built_from_their_parts() {
    assert_eq!(
        FidgetMessage::created(4, token("a")),
        FidgetMessage { id: 4, token: token("a"), progress: ProgressStatus::Created }
    );
    assert_eq!(
        FidgetMessage::started(4, token("a"), report("x")),
        FidgetMessage { id: 4, token: token("a"), progress: ProgressStatus::Started(report("x")) }
    );
    assert_eq!(
        FidgetMessage::ended(4, token("a"), WorkDoneProgressEnd { message: None }),
        FidgetMessage {
            id: 4,
            token: token("a"),
            progress: ProgressStatus::Started(WorkDoneProgress::End(WorkDoneProgressEnd {
                message: None,
            })),
        }
    );
}

#[test]
fn end_progress_sends_an_end() {
    let (mut fidget, mut widget) = fidget_and_widget();
    fidget.create(1, token("a")).unwrap();
    fidget
        .end_progress(1, token("a"), WorkDoneProgressEnd { message: Some("bye".to_string()) })
        .unwrap();
    widget.update();
    widget.update();
    let item = &widget.providers()[0].items()[0];
    assert!(item.finished());
    assert_eq!(item.line(), &Some("[a] bye".to_string()));
}

#[test]
fn widget_outlives_its_handles() {
    let (mut fidget, mut widget) = fidget_and_widget();
    fidget.create(1, token("a")).unwrap();
    drop(fidget);
    assert!(matches!(widget.update(), Drained::Applied));
    assert!(matches!(widget.update(), Drained::Nothing));
    assert_eq!(widget.providers().len(), 1);
}

#[test]
fn events_arrive_in_the_order_sent() {
    let (mut fidget, mut widget) = fidget_and_widget();
    for n in 0..20 {
        fidget.create(1, ProgressToken::Number(n)).unwrap();
    }
    for _ in 0..20 {
        widget.update();
    }
    let names: Vec<ProgressToken> =
        widget.providers()[0].items().iter().map(|item| item.token().clone()).collect();
    let expected: Vec<ProgressToken> = (0..20).map(ProgressToken::Number).collect();
    assert_eq!(names, expected);
}

#[test]
fn each_handle_keeps_its_own_order_when_handles_interleave() {
    let (mut first, mut widget) = fidget_and_widget();
    let mut second = first.clone();
    first.create(1, token("A")).unwrap();
    second.create(2, token("x")).unwrap();
    first.create(1, token("B")).unwrap();
    second.create(2, token("y")).unwrap();
    second.create(2, token("z")).unwrap();
    first.create(1, token("C")).unwrap();
    for _ in 0..6 {
        assert!(matches!(widget.update(), Drained::Applied));
    }
    let names = |index: usize| -> Vec<ProgressToken> {
        widget.providers()[index].items().iter().map(|item| item.token().clone()).collect()
    };
    assert_eq!(names(0), vec![token("A"), token("B"), token("C")]);
    assert_eq!(names(1), vec![token("x"), token("y"), token("z")]);
}

fn is_send<T: Send>(_value: &T) -> bool {
    true
}

#[test]
fn handle_and_widget_can_move_to_other_threads() {
    let (fidget, widget) = fidget_and_widget();
    assert!(is_send(&fidget));
    assert!(is_send(&widget));
    assert!(is_send(&fidget.clone()));
}

#[test]
fn clones_of_events_are_equal_to_them() {
    let begin = WorkDoneProgress::Begin(fidget::WorkDoneProgressBegin {
        title: "Build".to_string(),
        message: Some("crate 1".to_string()),
        percentage: Some(3),
    });
    assert_eq!(begin.clone(), begin);
    assert_eq!(report("x").clone(), report("x"));
    let end = WorkDoneProgressEnd { message: None };
    assert_eq!(end.clone(), end);
    let status = ProgressStatus::Started(begin);
    assert_eq!(status.clone(), status);
    assert_eq!(ProgressStatus::Created.clone(), ProgressStatus::Created);
    let message = FidgetMessage::started(8, ProgressToken::Number(-4), report("y"));
    assert_eq!(message.clone(), message);
    assert_ne!(message, FidgetMessage::created(8, ProgressToken::Number(-4)));
}
