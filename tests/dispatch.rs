use command_dispatch::dispatch::{reply_for, resolve, Reply, Resolution};
use command_dispatch::pagination::{Nav, PageSession, Step};
use command_dispatch::registry::CommandList;
use command_dispatch::response::{CommandReturn, Embed, EmbedField, EmbedPages};
use command_dispatch::user_message::{msg_from_user_info, CharacterLine};

fn embed(title: &str) -> Embed {
    Embed {
        title: title.to_string(),
        description: format!("about {}", title),
        fields: vec![EmbedField { name: "k".to_string(), value: "v".to_string(), inline: false }],
    }
}

fn pages(titles: &[&str]) -> EmbedPages {
    EmbedPages::new(titles.iter().map(|t| embed(t)).collect()).unwrap()
}

fn session(titles: &[&str]) -> PageSession {
    match reply_for(CommandReturn::EmbedPages(pages(titles))) {
        Reply::Paged(s) => s,
        _ => panic!("expected a paged reply"),
    }
}

fn sample_list() -> CommandList<u32> {
    let mut list = CommandList::new();
    assert!(list.add("조회".to_string(), 1));
    assert!(list.add("사용자초기화".to_string(), 2));
    assert!(list.add("등록".to_string(), 3));
    list
}

#[test]
fn lookup_finds_each_registered_handler() {
    let list = sample_list();
    assert_eq!(list.lookup("조회"), Some(&1));
    assert_eq!(list.lookup("사용자초기화"), Some(&2));
    assert_eq!(list.lookup("등록"), Some(&3));
    assert_eq!(list.len(), 3);
}

#[test]
fn lookup_is_exact_and_case_sensitive() {
    let mut list: CommandList<u32> = CommandList::new();
    assert!(list.add("ping".to_string(), 7));
    assert_eq!(list.lookup("Ping"), None);
    assert_eq!(list.lookup("pin"), None);
    assert_eq!(list.lookup("ping "), None);
    assert_eq!(list.lookup(""), None);
}

#[test]
fn duplicate_name_is_refused() {
    let mut list = sample_list();
    assert!(!list.add("등록".to_string(), 9));
    assert_eq!(list.len(), 3);
    assert_eq!(list.lookup("등록"), Some(&3));
}

#[test]
fn registry_lists_entries_in_order() {
    let list = sample_list();
    assert_eq!(list.name_at(0), "조회");
    assert_eq!(list.name_at(2), "등록");
    assert_eq!(*list.handler_at(1), 2);
}

#[test]
fn unknown_command_renders_empty_text() {
    let list = sample_list();
    assert!(list.lookup("없는명령").is_none());
    match resolve(&list, "없는명령") {
        Resolution::Answer(Reply::Text(s)) => assert_eq!(s, ""),
        _ => panic!("expected an empty text reply"),
    }
}

#[test]
fn known_command_runs_its_handler() {
    let list = sample_list();
    match resolve(&list, "사용자초기화") {
        Resolution::Run(h) => assert_eq!(*h, 2),
        _ => panic!("expected the registered handler"),
    }
    match resolve(&list, "등록") {
        Resolution::Run(h) => assert_eq!(*h, 3),
        _ => panic!("expected the registered handler"),
    }
}

#[test]
fn text_result_is_one_edit_with_that_body() {
    match reply_for(CommandReturn::Text("hello".to_string())) {
        Reply::Text(s) => assert_eq!(s, "hello"),
        _ => panic!("expected one text edit"),
    }
}

#[test]
fn empty_result_makes_no_edit() {
    assert!(matches!(reply_for(CommandReturn::Empty), Reply::Silent));
}

#[test]
fn single_embed_result_is_rendered_as_is() {
    match reply_for(CommandReturn::SingleEmbed(embed("solo"))) {
        Reply::Embed(e) => {
            assert_eq!(e.title, "solo");
            assert_eq!(e.description, "about solo");
            assert_eq!(e.fields.len(), 1);
        }
        _ => panic!("expected an embed edit"),
    }
}

#[test]
fn empty_page_set_is_refused() {
    assert!(EmbedPages::new(Vec::new()).is_none());
    let p = pages(&["only"]);
    assert_eq!(p.len(), 1);
    assert_eq!(p.page(0).title, "only");
    assert_eq!(p.into_pages().len(), 1);
}

#[test]
fn pages_render_first_then_clamp_at_last() {
    let mut s = session(&["A", "B", "C"]);
    assert_eq!(s.current().title, "A");
    assert_eq!(s.handle(Nav::Next), Step::Render);
    assert_eq!(s.current().title, "B");
    assert_eq!(s.handle(Nav::Next), Step::Render);
    assert_eq!(s.current().title, "C");
    assert_eq!(s.handle(Nav::Next), Step::Render);
    assert_eq!(s.current().title, "C");
    assert_eq!(s.position(), 2);
}

#[test]
fn repeated_next_at_last_page_stays() {
    let mut s = session(&["A", "B"]);
    s.handle(Nav::Jump(1));
    for _ in 0..5 {
        assert_eq!(s.handle(Nav::Next), Step::Render);
        assert_eq!(s.position(), 1);
    }
    assert!(s.active());
}

#[test]
fn repeated_previous_at_first_page_stays() {
    let mut s = session(&["A", "B", "C"]);
    for _ in 0..4 {
        assert_eq!(s.handle(Nav::Previous), Step::Render);
        assert_eq!(s.position(), 0);
    }
    assert_eq!(s.current().title, "A");
}

#[test]
fn jump_is_clamped_to_the_pages() {
    let mut s = session(&["A", "B", "C"]);
    assert_eq!(s.handle(Nav::Jump(1)), Step::Render);
    assert_eq!(s.current().title, "B");
    assert_eq!(s.handle(Nav::Jump(100)), Step::Render);
    assert_eq!(s.position(), 2);
    assert_eq!(s.handle(Nav::Previous), Step::Render);
    assert_eq!(s.current().title, "B");
}

#[test]
fn single_page_session_never_moves() {
    let mut s = session(&["only"]);
    assert_eq!(s.len(), 1);
    s.handle(Nav::Next);
    s.handle(Nav::Previous);
    s.handle(Nav::Jump(3));
    assert_eq!(s.position(), 0);
}

#[test]
fn rendering_twice_shows_the_same_page() {
    let mut s = session(&["A", "B", "C"]);
    s.handle(Nav::Next);
    let first = s.current().title.clone();
    let second = s.current().title.clone();
    assert_eq!(first, second);
    assert_eq!(first, "B");
}

#[test]
fn events_after_close_change_nothing() {
    let mut s = session(&["A", "B", "C"]);
    s.handle(Nav::Next);
    assert_eq!(s.handle(Nav::Close), Step::Closed);
    assert!(!s.active());
    assert_eq!(s.handle(Nav::Next), Step::Ignored);
    assert_eq!(s.handle(Nav::Jump(2)), Step::Ignored);
    assert_eq!(s.handle(Nav::Previous), Step::Ignored);
    assert_eq!(s.handle(Nav::Close), Step::Ignored);
    assert_eq!(s.position(), 1);
    assert_eq!(s.current().title, "B");
}

#[test]
fn events_after_timeout_change_nothing() {
    let mut s = session(&["A", "B"]);
    assert_eq!(s.handle(Nav::Timeout), Step::Closed);
    assert_eq!(s.handle(Nav::Next), Step::Ignored);
    assert_eq!(s.position(), 0);
}

#[test]
fn failed_render_ends_session_and_others_go_on() {
    let mut failing = session(&["A", "B"]);
    failing.handle(Nav::Next);
    failing.render_failed();
    assert!(!failing.active());
    assert_eq!(failing.handle(Nav::Previous), Step::Ignored);
    assert_eq!(failing.position(), 1);

    let mut other = session(&["X", "Y"]);
    assert_eq!(other.handle(Nav::Next), Step::Render);
    assert_eq!(other.current().title, "Y");
    match reply_for(CommandReturn::Text("still here".to_string())) {
        Reply::Text(s) => assert_eq!(s, "still here"),
        _ => panic!("expected a text reply"),
    }
}

#[test]
fn two_interactions_complete_independently() {
    let list = sample_list();
    let mut first = session(&["A", "B", "C"]);
    let mut second = session(&["P", "Q"]);
    assert_eq!(list.lookup("조회"), Some(&1));
    assert_eq!(second.handle(Nav::Next), Step::Render);
    assert_eq!(list.lookup("등록"), Some(&3));
    assert_eq!(first.handle(Nav::Jump(2)), Step::Render);
    assert_eq!(second.handle(Nav::Close), Step::Closed);
    assert_eq!(first.handle(Nav::Previous), Step::Render);
    assert_eq!(first.current().title, "B");
    assert_eq!(second.current().title, "Q");
    assert!(first.active());
    assert!(!second.active());
}

#[test]
fn user_summary_lists_each_character() {
    let chars = vec![
        CharacterLine {
            name: "모코코".to_string(),
            class: "바드".to_string(),
            level: "1540".to_string(),
            income: "2500".to_string(),
        },
        CharacterLine {
            name: "두번째".to_string(),
            class: "워로드".to_string(),
            level: "1490".to_string(),
            income: "0".to_string(),
        },
    ];
    let msg = msg_from_user_info("사용자", &chars);
    assert_eq!(
        msg,
        "사용자\n닉네임: 모코코, 클래스: 바드, 레벨: 1540, 수입: 2500\n닉네임: 두번째, 클래스: 워로드, 레벨: 1490, 수입: 0"
    );
}

#[test]
fn user_summary_without_characters_is_the_name() {
    assert_eq!(msg_from_user_info("사용자", &Vec::new()), "사용자");
}
