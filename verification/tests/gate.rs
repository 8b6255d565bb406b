use marker_canvas::close_gate::CloseGate;

#[test]
fn gate_starts_open() {
    let g = CloseGate::new();
    assert_eq!(g, CloseGate::Open);
    assert!(!g.dialog_shown());
}

#[test]
fn close_request_is_denied_and_raises_dialog() {
    let mut g = CloseGate::new();
    let permit = g.request_close();
    assert!(!permit);
    assert_eq!(g, CloseGate::ConfirmPending);
    assert!(g.dialog_shown());
}

#[test]
fn cancel_returns_to_open() {
    let mut g = CloseGate::new();
    g.request_close();
    g.cancel();
    assert_eq!(g, CloseGate::Open);
    assert!(!g.dialog_shown());
}

#[test]
fn confirm_permits_close() {
    let mut g = CloseGate::new();
    let first = g.request_close();
    assert!(!first);
    g.confirm();
    assert_eq!(g, CloseGate::ClosingAllowed);
    let second = g.request_close();
    assert!(second);
    assert_eq!(g, CloseGate::ClosingAllowed);
}

#[test]
fn repeated_requests_stay_pending() {
    let mut g = CloseGate::new();
    assert!(!g.request_close());
    assert!(!g.request_close());
    assert_eq!(g, CloseGate::ConfirmPending);
}

#[test]
fn cancel_after_confirm_keeps_close_permitted() {
    let mut g = CloseGate::new();
    g.request_close();
    g.confirm();
    g.cancel();
    assert_eq!(g, CloseGate::ClosingAllowed);
}
