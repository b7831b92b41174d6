use fpgrars::input::MyState;
use fpgrars::regname::{float_register_index, gp_register_index, status_register_index};

fn name(s: &str) -> Vec<u8> {
    s.as_bytes().to_vec()
}

#[test]
fn numeric_gp_names_resolve() {
    assert_eq!(gp_register_index(&name("x0")), Some(0));
    assert_eq!(gp_register_index(&name("x31")), Some(31));
    assert_eq!(gp_register_index(&name("x32")), None);
}

#[test]
fn abi_gp_names_resolve() {
    assert_eq!(gp_register_index(&name("zero")), Some(0));
    assert_eq!(gp_register_index(&name("ra")), Some(1));
    assert_eq!(gp_register_index(&name("sp")), Some(2));
    assert_eq!(gp_register_index(&name("gp")), Some(3));
    assert_eq!(gp_register_index(&name("tp")), Some(4));
    assert_eq!(gp_register_index(&name("t0")), Some(5));
    assert_eq!(gp_register_index(&name("t6")), Some(31));
    assert_eq!(gp_register_index(&name("s0")), Some(8));
    assert_eq!(gp_register_index(&name("fp")), Some(8));
    assert_eq!(gp_register_index(&name("s11")), Some(27));
    assert_eq!(gp_register_index(&name("a0")), Some(10));
    assert_eq!(gp_register_index(&name("a7")), Some(17));
    assert_eq!(gp_register_index(&name("a8")), None);
    assert_eq!(gp_register_index(&name("banana")), None);
    assert_eq!(gp_register_index(&name("")), None);
}

#[test]
fn float_names_resolve_in_their_own_namespace() {
    assert_eq!(float_register_index(&name("f0")), Some(0));
    assert_eq!(float_register_index(&name("f31")), Some(31));
    assert_eq!(float_register_index(&name("ft0")), Some(0));
    assert_eq!(float_register_index(&name("ft11")), Some(31));
    assert_eq!(float_register_index(&name("fs0")), Some(8));
    assert_eq!(float_register_index(&name("fs11")), Some(27));
    assert_eq!(float_register_index(&name("fa7")), Some(17));
    assert_eq!(float_register_index(&name("x1")), None);
    // general-purpose names do not collide into the float namespace
    assert_eq!(float_register_index(&name("sp")), None);
}

#[test]
fn status_names_resolve() {
    assert_eq!(status_register_index(&name("fflags")), Some(0));
    assert_eq!(status_register_index(&name("frm")), Some(1));
    assert_eq!(status_register_index(&name("fcsr")), Some(2));
    assert_eq!(status_register_index(&name("time")), Some(3));
    assert_eq!(status_register_index(&name("x1")), None);
}

#[test]
fn key_buffer_queues_in_order() {
    let mut st = MyState::new();
    assert_eq!(st.pop_key(), None);
    st.push_key(b'a');
    st.push_key(b'b');
    assert_eq!(st.pop_key(), Some(b'a'));
    assert_eq!(st.pop_key(), Some(b'b'));
    assert_eq!(st.pop_key(), None);
}
