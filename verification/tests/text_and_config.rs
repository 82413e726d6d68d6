use mcp_todolist::config::resolve_database_url;
use mcp_todolist::storage_pool::StoragePool;
use mcp_todolist::supervisor::{Supervisor, SupervisorEvent, SupervisorPhase};
use mcp_todolist::text::{concat2, concat3, i32_to_string, parse_i32, str_eq, u64_to_string};
use mcp_todolist::todo_dto::{ReqCreateTodoDto, ReqUpdateTodoDto, ResEntryTodoDto};
use mcp_todolist::todo_entity::{EntryTodoEntity, NewTodoEntity, UpdateTodoEntity};

#[test]
fn decimal_rendering_is_exact() {
    assert_eq!(u64_to_string(0), "0");
    assert_eq!(u64_to_string(7), "7");
    assert_eq!(u64_to_string(10), "10");
    assert_eq!(u64_to_string(90210), "90210");
    assert_eq!(i32_to_string(0), "0");
    assert_eq!(i32_to_string(123), "123");
    assert_eq!(i32_to_string(-45), "-45");
    assert_eq!(i32_to_string(i32::MAX), "2147483647");
    assert_eq!(i32_to_string(i32::MIN), "-2147483648");
}

#[test]
fn parsing_accepts_exactly_the_i32_numerals() {
    assert_eq!(parse_i32("0"), Some(0));
    assert_eq!(parse_i32("123"), Some(123));
    assert_eq!(parse_i32("+7"), Some(7));
    assert_eq!(parse_i32("-45"), Some(-45));
    assert_eq!(parse_i32("007"), Some(7));
    assert_eq!(parse_i32("2147483647"), Some(i32::MAX));
    assert_eq!(parse_i32("-2147483648"), Some(i32::MIN));
    assert_eq!(parse_i32("2147483648"), None);
    assert_eq!(parse_i32("-2147483649"), None);
    assert_eq!(parse_i32("999999999999999999999"), None);
    assert_eq!(parse_i32(""), None);
    assert_eq!(parse_i32("-"), None);
    assert_eq!(parse_i32("+"), None);
    assert_eq!(parse_i32("abc"), None);
    assert_eq!(parse_i32("12a"), None);
    assert_eq!(parse_i32(" 12"), None);
    assert_eq!(parse_i32("1 2"), None);
    assert_eq!(parse_i32("--1"), None);
}

#[test]
fn parsing_agrees_with_the_standard_parser_on_samples() {
    for s in ["0", "-1", "+42", "0099", "2147483647", "-2147483648", "2147483648", "x", ""] {
        assert_eq!(parse_i32(s), s.parse::<i32>().ok(), "diverged on {:?}", s);
    }
}

#[test]
fn concatenation_and_equality_helpers_behave() {
    assert_eq!(concat2("ab", "cd"), "abcd");
    assert_eq!(concat3("a", "b", "c"), "abc");
    assert!(str_eq("same", "same"));
    assert!(!str_eq("same", "other"));
}

#[test]
fn conversions_carry_every_field() {
    let create = ReqCreateTodoDto {
        title: "t".to_string(),
        description: "d".to_string(),
        is_done: true,
    };
    let entity = NewTodoEntity::from(create);
    assert_eq!(entity.title, "t");
    assert_eq!(entity.description, "d");
    assert!(entity.is_done);

    let update = ReqUpdateTodoDto {
        id: 3,
        title: Some("n".to_string()),
        description: None,
        is_done: Some(false),
    };
    let patch = UpdateTodoEntity::from(update);
    assert_eq!(patch.title.as_deref(), Some("n"));
    assert_eq!(patch.description, None);
    assert_eq!(patch.is_done, Some(false));

    let row = EntryTodoEntity {
        id: 5,
        title: "a".to_string(),
        description: "b".to_string(),
        is_done: false,
        created_at: Some("c".to_string()),
        updated_at: None,
    };
    let view = ResEntryTodoDto::from(row);
    assert_eq!(view.id, 5);
    assert_eq!(view.title, "a");
    assert_eq!(view.description, "b");
    assert!(!view.is_done);
    assert_eq!(view.created_at, "c");
    assert_eq!(view.updated_at, "");
}

#[test]
fn entity_identifier_projects_as_unsigned() {
    let row = EntryTodoEntity {
        id: -1,
        title: "a".to_string(),
        description: "b".to_string(),
        is_done: false,
        created_at: None,
        updated_at: None,
    };
    let view = ResEntryTodoDto::from_entity(row);
    assert_eq!(view.id, u32::MAX);
}

#[test]
fn configuration_prefers_the_environment_value() {
    let from_env = resolve_database_url(Some("env.db".to_string()), Some("arg.db".to_string()))
        .unwrap();
    assert_eq!(from_env.database_url, "env.db");
    let from_arg = resolve_database_url(None, Some("arg.db".to_string())).unwrap();
    assert_eq!(from_arg.database_url, "arg.db");
    assert!(resolve_database_url(None, None).is_none());
}

#[test]
fn pool_lends_within_its_bound_and_takes_back() {
    let mut pool = StoragePool::new("somewhere.db".to_string(), 2);
    let a = pool.acquire().unwrap();
    let b = pool.acquire().unwrap();
    assert!(pool.acquire().is_none());
    pool.release(a);
    let c = pool.acquire().unwrap();
    pool.release(b);
    pool.release(c);
}

#[test]
fn supervisor_records_the_first_trigger_and_stops() {
    let mut s = Supervisor::new();
    assert_eq!(s.phase, SupervisorPhase::Starting);
    s.adapters_started();
    assert_eq!(s.phase, SupervisorPhase::Running);
    assert!(s.trigger.is_none());
    s.observe(SupervisorEvent::ShutdownSignal);
    assert_eq!(s.phase, SupervisorPhase::Draining);
    assert_eq!(s.trigger, Some(SupervisorEvent::ShutdownSignal));
    s.exit();
    assert_eq!(s.phase, SupervisorPhase::Stopped);
    assert_eq!(s.trigger, Some(SupervisorEvent::ShutdownSignal));
}

#[test]
fn supervisor_can_be_ended_by_either_adapter() {
    for event in [SupervisorEvent::HttpTerminated, SupervisorEvent::ToolTerminated] {
        let mut s = Supervisor::new();
        s.adapters_started();
        s.observe(event);
        s.exit();
        assert_eq!(s.phase, SupervisorPhase::Stopped);
        assert_eq!(s.trigger, Some(event));
    }
}
