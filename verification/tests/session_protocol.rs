use vagabond_server::entity::ServerEntity;
use vagabond_server::game_match::ServerGameMatch;
use vagabond_server::geometry::{Point2, Rect};
use vagabond_server::session::{decimal_digits, Admission, Session, SessionState, BUFFER_SIZE};
use vagabond_server::status::MatchStatus;

#[test]
fn slots_are_handed_out_in_order_and_a_third_connection_is_refused() {
    let mut adm = Admission::new();
    assert_eq!(adm.active_count(), 0);
    assert_eq!(adm.assign_slot(), Some(0));
    assert_eq!(adm.assign_slot(), Some(1));
    assert_eq!(adm.active_count(), 2);
    // with two sessions active, a third connection gets no slot and its
    // socket is closed without any bytes sent
    assert_eq!(adm.assign_slot(), None);
    assert_eq!(adm.active_count(), 2);
}

#[test]
fn a_released_slot_is_reused() {
    let mut adm = Admission::new();
    assert_eq!(adm.assign_slot(), Some(0));
    assert_eq!(adm.assign_slot(), Some(1));
    adm.release(0);
    assert_eq!(adm.active_count(), 1);
    assert_eq!(adm.assign_slot(), Some(0));
    adm.release(1);
    assert_eq!(adm.assign_slot(), Some(1));
    assert_eq!(adm.assign_slot(), None);
}

#[test]
fn handshake_sends_the_slot_id_as_ascii() {
    let mut s0 = Session::new(0);
    assert_eq!(s0.state, SessionState::Handshake);
    assert_eq!(s0.handshake_message(), b"0".to_vec());
    assert_eq!(s0.state, SessionState::Active);

    let mut s1 = Session::new(1);
    assert_eq!(s1.handshake_message(), b"1".to_vec());
}

#[test]
fn decimal_digits_writes_base_ten_ascii() {
    assert_eq!(decimal_digits(0), b"0".to_vec());
    assert_eq!(decimal_digits(7), b"7".to_vec());
    assert_eq!(decimal_digits(10), b"10".to_vec());
    assert_eq!(decimal_digits(1337), b"1337".to_vec());
    assert_eq!(decimal_digits(usize::MAX), usize::MAX.to_string().into_bytes());
}

#[test]
fn only_the_slot_one_session_advances_the_clock() {
    let mut m = ServerGameMatch::new();
    m.update_clock(0);
    assert_eq!(m.clock.current, 60);

    let mut s0 = Session::new(0);
    s0.handshake_message();
    s0.process(&mut m, ServerEntity::new(), 30);
    assert_eq!(m.clock.current, 60);

    let mut s1 = Session::new(1);
    s1.handshake_message();
    s1.process(&mut m, ServerEntity::new(), 30);
    assert_eq!(m.clock.current, 30);
}

#[test]
fn a_full_exchange_resolves_a_hit() {
    let mut m = ServerGameMatch::new();

    let mut s0 = Session::new(0);
    let mut s1 = Session::new(1);
    s0.handshake_message();
    s1.handshake_message();

    // slot 1 reports where it stands; its pass starts the clock
    let mut defender = ServerEntity::new();
    defender.id = 1;
    defender.bound = Rect::new(Point2::new(0, 0), Point2::new(10, 10));
    s1.process(&mut m, defender, 1);
    assert_eq!(m.clock.current, 59);

    // slot 0 lands an attack
    let mut att = ServerEntity::new();
    att.entity_actions.attacking = true;
    att.entity_actions.damage_check = true;
    att.attack_bound = Rect::new(Point2::new(5, 5), Point2::new(15, 15));
    s0.process(&mut m, att, 1);

    assert_eq!(m.server_entities[1].hp, 4);
    assert_eq!(m.server_entities[0].hp, 5);
    assert_eq!(m.match_status, MatchStatus::InProgress);
}

#[test]
fn closing_a_session_keeps_its_slot_number() {
    let mut s = Session::new(1);
    s.close();
    assert_eq!(s.state, SessionState::Closed);
    assert_eq!(s.slot, 1);
}

#[test]
fn buffer_size_matches_the_protocol_constant() {
    assert_eq!(BUFFER_SIZE, 1024);
}
