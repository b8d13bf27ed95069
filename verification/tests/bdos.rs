use z80core::registers::Reg16;
use z80core::state::State;
use z80core::zexio::ZexIo;

#[test]
fn writestr_stops_at_terminator() {
    // DE points at "HI$": exactly "HI" comes out, nothing after the $.
    let mut state = State::new();
    state.reg.set16(Reg16::DE, 0x0100);
    state.poke(0x0100, b'H');
    state.poke(0x0101, b'I');
    state.poke(0x0102, b'$');
    state.reg.c = 9;
    let out = ZexIo::bdos(&state).expect("function 9 is implemented");
    assert_eq!(out, b"HI".to_vec());
}

#[test]
fn writestr_empty_string() {
    let mut state = State::new();
    state.reg.set16(Reg16::DE, 0x0200);
    state.poke(0x0200, b'$');
    let out = ZexIo::bdos_c_writestr(&state);
    assert!(out.is_empty());
}

#[test]
fn writestr_wraps_around_address_top() {
    let mut state = State::new();
    state.reg.set16(Reg16::DE, 0xFFFF);
    state.poke(0xFFFF, b'A');
    state.poke(0x0000, b'B');
    state.poke(0x0001, b'$');
    let out = ZexIo::bdos_c_writestr(&state);
    assert_eq!(out, b"AB".to_vec());
}

#[test]
fn unknown_bdos_function_is_refused() {
    let mut state = State::new();
    state.reg.c = 2;
    assert!(ZexIo::bdos(&state).is_none());
}
