use fidget::{
    ProgressStatus, ProgressToken, Provider, WorkDoneProgress, WorkDoneProgressBegin,
    WorkDoneProgressEnd, WorkDoneProgressReport,
};

fn token(name: &str) -> ProgressToken {
    ProgressToken::String(name.to_string())
}

fn begin(title: &str, percentage: Option<u32>) -> ProgressStatus {
    ProgressStatus::Started(WorkDoneProgress::Begin(WorkDoneProgressBegin {
        title: title.to_string(),
        message: None,
        percentage,
    }))
}

fn report(message: &str) -> ProgressStatus {
    ProgressStatus::Started(WorkDoneProgress::Report(WorkDoneProgressReport {
        message: Some(message.to_string()),
        percentage: None,
    }))
}

fn end() -> ProgressStatus {
    ProgressStatus::Started(WorkDoneProgress::End(WorkDoneProgressEnd { message: None }))
}

fn lines_of(provider: &Provider) -> Vec<Option<String>> {
    provider.items().iter().map(|item| item.line().clone()).collect()
}

#[test]
fn new_provider_has_no_items() {
    let provider = Provider::new(4);
    assert_eq!(provider.id(), 4);
    assert!(provider.items().is_empty());
}

#[test]
fn created_adds_an_empty_item() {
    let mut provider = Provider::new(1);
    assert!(provider.update(&token("a"), ProgressStatus::Created));
    assert_eq!(provider.items().len(), 1);
    let item = &provider.items()[0];
    assert_eq!(item.token(), &token("a"));
    assert_eq!(item.title(), &None);
    assert_eq!(item.line(), &None);
    assert!(!item.finished());
}

#[test]
fn created_twice_adds_two_items() {
    let mut provider = Provider::new(1);
    assert!(provider.update(&token("a"), ProgressStatus::Created));
    assert!(provider.update(&token("a"), ProgressStatus::Created));
    assert_eq!(provider.items().len(), 2);
    assert_eq!(provider.items()[0].token(), &token("a"));
    assert_eq!(provider.items()[1].token(), &token("a"));
}

#[test]
fn report_goes_to_the_oldest_item_of_that_name() {
    let mut provider = Provider::new(1);
    provider.update(&token("a"), ProgressStatus::Created);
    provider.update(&token("b"), ProgressStatus::Created);
    provider.update(&token("a"), ProgressStatus::Created);
    assert!(provider.update(&token("a"), report("first")));
    assert_eq!(lines_of(&provider), vec![Some("[a] first".to_string()), None, None]);
    assert!(provider.update(&token("b"), report("second")));
    assert_eq!(
        lines_of(&provider),
        vec![Some("[a] first".to_string()), Some("[b] second".to_string()), None]
    );
}

#[test]
fn report_on_an_unknown_token_is_dropped() {
    let mut provider = Provider::new(1);
    provider.update(&token("a"), ProgressStatus::Created);
    assert!(!provider.update(&token("b"), report("lost")));
    assert_eq!(provider.items().len(), 1);
    assert_eq!(provider.items()[0].token(), &token("a"));
    assert_eq!(provider.items()[0].line(), &None);
}

#[test]
fn report_on_an_empty_provider_is_dropped() {
    let mut provider = Provider::new(1);
    assert!(!provider.update(&token("tok-x"), report("x")));
    assert!(provider.items().is_empty());
}

#[test]
fn number_and_string_tokens_do_not_meet() {
    let mut provider = Provider::new(1);
    provider.update(&ProgressToken::Number(5), ProgressStatus::Created);
    assert!(!provider.update(&token("5"), report("lost")));
    assert!(provider.update(&ProgressToken::Number(5), report("found")));
    assert_eq!(lines_of(&provider), vec![Some("[5] found".to_string())]);
}

#[test]
fn finished_item_stays_until_the_next_event() {
    let mut provider = Provider::new(1);
    provider.update(&token("a"), ProgressStatus::Created);
    provider.update(&token("a"), begin("Build", Some(0)));
    assert!(provider.update(&token("a"), end()));
    assert_eq!(provider.items().len(), 1);
    assert!(provider.items()[0].finished());
    assert_eq!(provider.items()[0].line(), &Some("[a] Build".to_string()));
    provider.update(&token("b"), ProgressStatus::Created);
    assert_eq!(provider.items().len(), 1);
    assert_eq!(provider.items()[0].token(), &token("b"));
}

#[test]
fn dropped_report_still_evicts() {
    let mut provider = Provider::new(1);
    provider.update(&token("a"), ProgressStatus::Created);
    provider.update(&token("a"), end());
    assert!(!provider.update(&token("zzz"), report("lost")));
    assert!(provider.items().is_empty());
}

#[test]
fn report_on_a_finished_item_is_dropped() {
    let mut provider = Provider::new(1);
    provider.update(&token("a"), ProgressStatus::Created);
    provider.update(&token("a"), end());
    assert!(!provider.update(&token("a"), report("late")));
    assert!(provider.items().is_empty());
}

#[test]
fn eviction_keeps_the_order_of_the_rest() {
    let mut provider = Provider::new(1);
    for name in ["a", "b", "c", "d", "e"] {
        provider.update(&token(name), ProgressStatus::Created);
    }
    provider.update(&token("b"), end());
    assert_eq!(provider.items().len(), 5);
    provider.update(&token("d"), end());
    assert_eq!(provider.items().len(), 4);
    provider.update(&token("f"), ProgressStatus::Created);
    let names: Vec<&ProgressToken> = provider.items().iter().map(|item| item.token()).collect();
    assert_eq!(names, vec![&token("a"), &token("c"), &token("e"), &token("f")]);
}

#[test]
fn report_after_eviction_reaches_the_second_item_of_that_name() {
    let mut provider = Provider::new(1);
    provider.update(&token("a"), ProgressStatus::Created);
    provider.update(&token("a"), ProgressStatus::Created);
    provider.update(&token("a"), end());
    assert!(provider.update(&token("a"), report("now the other")));
    assert_eq!(lines_of(&provider), vec![Some("[a] now the other".to_string())]);
}

#[test]
fn lines_start_with_the_header() {
    let provider = Provider::new(12);
    assert_eq!(provider.lines(), vec!["id: 12".to_string()]);
}

#[test]
fn lines_show_the_newest_item_first_and_skip_items_without_line() {
    let mut provider = Provider::new(0);
    provider.update(&token("a"), ProgressStatus::Created);
    provider.update(&token("b"), ProgressStatus::Created);
    provider.update(&token("c"), ProgressStatus::Created);
    provider.update(&token("a"), report("one"));
    provider.update(&token("c"), report("three"));
    assert_eq!(
        provider.lines(),
        vec!["id: 0".to_string(), "[c] three".to_string(), "[a] one".to_string()]
    );
}

#[test]
fn header_of_the_largest_number() {
    let provider = Provider::new(usize::MAX);
    assert_eq!(provider.lines(), vec![format!("id: {}", usize::MAX)]);
}
