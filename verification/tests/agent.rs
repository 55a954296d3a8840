use nav2_traffic::agent::{agent_id_from_name, decimal_digit, Nav2Agent};
use nav2_traffic::ids::PlanId;

fn is_v4(id: u128) -> bool {
    (id >> 76) & 0xF == 4 && (id >> 62) & 0x3 == 2
}

#[test]
fn decimal_digits() {
    assert_eq!(decimal_digit('0'), Some(0));
    assert_eq!(decimal_digit('9'), Some(9));
    assert_eq!(decimal_digit('a'), None);
    assert_eq!(decimal_digit('٣'), None);
    for c in ['0', '5', '9', 'x', '/', ':'] {
        assert_eq!(decimal_digit(c), c.to_digit(10));
    }
}

#[test]
fn agent_ids_from_names() {
    assert_eq!(agent_id_from_name("robot0"), 0);
    assert_eq!(agent_id_from_name("robot1"), 1);
    assert_eq!(agent_id_from_name("agent12"), 2);
    assert_eq!(agent_id_from_name("robot"), 0);
    assert_eq!(agent_id_from_name(""), 0);
    assert_eq!(agent_id_from_name("robot٣"), 0);
}

#[test]
fn new_agent_fields() {
    let agent = Nav2Agent::new("robot7".to_string());
    assert_eq!(agent.id, 7);
    assert_eq!(agent.name, "robot7");
    assert!(!agent.localized);
    assert!(agent.last_safe_zone_id.is_none());
}

#[test]
fn safe_zone_ids_count_up_within_a_session() {
    let mut agent = Nav2Agent::new("robot1".to_string());
    let first = agent.next_safe_zone_id();
    assert_eq!(first.safe_zone_version, 1);
    assert_eq!(first.plan_id.plan_version, 0);
    assert!(is_v4(first.plan_id.destination_session));
    let second = agent.next_safe_zone_id();
    assert_eq!(second.safe_zone_version, 2);
    assert_eq!(second.plan_id, first.plan_id);
    assert_eq!(agent.last_safe_zone_id, Some(second));
}

#[test]
fn new_sessions_are_random_v4() {
    let a = PlanId::new_session();
    let b = PlanId::new_session();
    assert_eq!(a.plan_version, 0);
    assert!(is_v4(a.destination_session));
    assert!(is_v4(b.destination_session));
    assert_ne!(a.destination_session, b.destination_session);
}
