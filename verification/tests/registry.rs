use easyjack::BufferView;
use easyjack::CallbackContext;
use easyjack::Connector;
use easyjack::HandlerRegistry;
use easyjack::Notification;
use easyjack::NotifyingHandler;
use easyjack::PortConnectStatus;
use easyjack::status;

type Reg = HandlerRegistry<Connector<f32>, NotifyingHandler>;

fn one_pair_connector(input: Vec<f32>, out_len: u32) -> Connector<f32> {
    Connector::new(
        vec![BufferView::from_frames(input)],
        vec![BufferView::new(out_len, 0.0)],
    )
}

#[test]
fn registry_starts_empty() {
    let reg = Reg::new();
    assert!(reg.process_handler.is_none());
    assert!(reg.metadata_handler.is_none());
}

#[test]
fn accepted_registration_installs_the_handler() {
    let mut reg = Reg::new();
    let r = reg.set_process_handler(one_pair_connector(vec![1.0, 2.0], 2), true);
    assert!(r.is_ok());
    assert!(reg.process_handler.is_some());
    assert!(reg.metadata_handler.is_none());
}

#[test]
fn refused_registration_keeps_the_old_handler() {
    let mut reg = Reg::new();

    // a refusal with nothing registered leaves the category empty
    let r = reg.set_process_handler(one_pair_connector(vec![1.0], 1), false);
    assert_eq!(r.unwrap_err().bits(), status::FAILURE);
    assert!(reg.process_handler.is_none());

    // once a handler is active, a refused replacement leaves exactly it
    reg.set_process_handler(one_pair_connector(vec![5.0], 1), true).unwrap();
    let r = reg.set_process_handler(one_pair_connector(vec![9.0], 1), false);
    assert!(r.is_err());
    let h = reg.process_handler.as_ref().unwrap();
    assert_eq!(h.inputs[0].get(0), 5.0);
}

#[test]
fn confirmed_replacement_leaves_exactly_the_new_handler() {
    let mut reg = Reg::new();
    reg.set_process_handler(one_pair_connector(vec![5.0], 1), true).unwrap();
    reg.set_process_handler(one_pair_connector(vec![9.0], 1), true).unwrap();
    // never zero, never two: the one active handler is the new one
    let h = reg.process_handler.as_ref().unwrap();
    assert_eq!(h.inputs[0].get(0), 9.0);
}

#[test]
fn dispatch_invokes_the_handler_once_with_the_same_arguments() {
    let mut reg = Reg::new();
    reg.set_metadata_handler(NotifyingHandler::new(8), true).unwrap();
    reg.dispatch_sample_rate(96000);
    // exactly one invocation, with exactly the value the server passed
    let mut queue = reg.metadata_handler.unwrap().into_queue();
    assert_eq!(queue.try_recv(), Some(Notification::SampleRate(96000)));
    assert_eq!(queue.try_recv(), None);
}

#[test]
fn dispatch_returns_the_handler_status() {
    let mut reg = Reg::new();
    reg.set_process_handler(one_pair_connector(vec![0.0; 16], 16), true).unwrap();
    let ctx = CallbackContext::new();
    let status = reg.dispatch_process(&ctx, 16);
    assert_eq!(status, 0);
}

#[test]
fn dispatch_port_connect_reaches_the_handler() {
    let mut reg = Reg::new();
    reg.set_metadata_handler(NotifyingHandler::new(4), true).unwrap();
    reg.dispatch_port_connect(7, 8, PortConnectStatus::PortsConnected);
    reg.dispatch_port_connect(7, 8, PortConnectStatus::PortsDisconnected);
    let mut queue = reg.metadata_handler.unwrap().into_queue();
    assert_eq!(
        queue.try_recv(),
        Some(Notification::PortConnection(7, 8, PortConnectStatus::PortsConnected))
    );
    assert_eq!(
        queue.try_recv(),
        Some(Notification::PortConnection(7, 8, PortConnectStatus::PortsDisconnected))
    );
}

#[test]
fn sample_rate_notification_arrives_unaltered() {
    let mut reg = Reg::new();
    reg.set_metadata_handler(NotifyingHandler::new(1), true).unwrap();
    let status = reg.dispatch_sample_rate(48000);
    assert_eq!(status, 0);
    let mut queue = reg.metadata_handler.unwrap().into_queue();
    match queue.try_recv() {
        Some(Notification::SampleRate(rate)) => assert_eq!(rate, 48000),
        other => panic!("expected a sample-rate notification, got {:?}", other),
    }
}
