use prism::client::{Client, VersionCheck};
use prism::display::DisplayServer;
use prism::error::UnixSocketError;
use prism::packet::Packet;
use prism::prism::Prism;
use prism::server::{apply_control, CompositorServer, ControlMessage, PacketHandler};

struct RejectingHandler;

impl PacketHandler for RejectingHandler {
    fn handle_packet(
        &mut self,
        _window_id: u64,
        _packet: Packet,
    ) -> Result<Option<Packet>, UnixSocketError> {
        Err(UnixSocketError::SendError("handler reached".to_string()))
    }
}

#[test]
fn version_requests_never_reach_the_handler() {
    let mut server = CompositorServer::new(RejectingHandler);
    assert_eq!(server.max_recovery_attempts, 3);
    let r = server.dispatch_packet(1, Packet::RequestAPIVersion);
    assert_eq!(
        r,
        Ok(Some(Packet::APIVersion { major: 0, minor: 0, patch: 1 }))
    );
    // Any other packet goes to the handler.
    let r = server.dispatch_packet(1, Packet::Closed);
    assert_eq!(r, Err(UnixSocketError::SendError("handler reached".to_string())));
}

#[test]
fn control_messages_drive_the_loop() {
    assert_eq!(apply_control(false, Some(ControlMessage::Stop)), (false, true));
    assert_eq!(apply_control(false, Some(ControlMessage::Pause)), (true, false));
    assert_eq!(apply_control(true, Some(ControlMessage::Resume)), (false, false));
    assert_eq!(apply_control(true, None), (true, false));
    assert_eq!(apply_control(false, None), (false, false));
}

#[test]
fn bringup_creates_one_centred_active_window() {
    let mut prism = Prism::new();
    let mut d = DisplayServer::new();
    d.setup_renderer(1920, 1080);

    let r = prism.handle_packet(
        &mut d,
        42,
        Packet::Create { width: 640, height: 480, title: Some("T".to_string()) },
    );
    assert_eq!(r, Ok(Some(Packet::CreateSuccess { window_id: 42 })));

    assert_eq!(d.windows.len(), 1);
    let w = d.windows.get(&42).unwrap();
    assert!(w.is_active());
    assert!(w.has_title_bar());
    assert_eq!(w.get_title(), &Some("T".to_string()));
    let p = w.get_position();
    assert_eq!((p.x, p.y), (640, 300));
    let s = w.get_size();
    assert_eq!((s.width, s.height), (640, 480));
    assert!(d.is_window_dirty);
    assert_eq!(d.active_id, Some(42));
}

#[test]
fn untitled_create_builds_bare_window() {
    let mut prism = Prism::new();
    let mut d = DisplayServer::new();
    d.setup_renderer(800, 600);
    let r = prism.handle_packet(
        &mut d,
        7,
        Packet::Create { width: 100, height: 100, title: None },
    );
    assert_eq!(r, Ok(Some(Packet::CreateSuccess { window_id: 7 })));
    assert!(!d.windows.get(&7).unwrap().has_title_bar());
}

#[test]
fn second_create_replaces_the_connection_window() {
    let mut prism = Prism::new();
    let mut d = DisplayServer::new();
    d.setup_renderer(800, 600);
    prism
        .handle_packet(&mut d, 7, Packet::Create { width: 100, height: 100, title: None })
        .unwrap();
    prism
        .handle_packet(&mut d, 7, Packet::Create { width: 50, height: 40, title: None })
        .unwrap();
    assert_eq!(d.windows.len(), 1);
    let s = d.windows.get(&7).unwrap().get_size();
    assert_eq!((s.width, s.height), (50, 40));
}

#[test]
fn close_removes_window_and_is_idempotent() {
    let mut prism = Prism::new();
    let mut d = DisplayServer::new();
    d.setup_renderer(800, 600);
    prism
        .handle_packet(&mut d, 42, Packet::Create { width: 100, height: 100, title: None })
        .unwrap();
    let r = prism.handle_packet(&mut d, 42, Packet::Close { window_id: 42 });
    assert_eq!(r, Ok(Some(Packet::Closed)));
    assert!(d.windows.is_empty());
    // Closing again is a no-op that still answers `Closed`.
    let r = prism.handle_packet(&mut d, 42, Packet::Close { window_id: 42 });
    assert_eq!(r, Ok(Some(Packet::Closed)));
    assert!(d.windows.is_empty());
}

#[test]
fn geometry_requests_are_answered_from_display() {
    let mut prism = Prism::new();
    let mut d = DisplayServer::new();
    d.setup_renderer(1000, 1000);
    prism
        .handle_packet(&mut d, 5, Packet::Create { width: 200, height: 100, title: None })
        .unwrap();
    let r = prism.handle_packet(&mut d, 5, Packet::RequestWindowPosition { window_id: 5 });
    assert_eq!(r, Ok(Some(Packet::Position { x: 400, y: 450 })));
    let r = prism.handle_packet(&mut d, 5, Packet::RequestWindowSize { window_id: 5 });
    assert_eq!(r, Ok(Some(Packet::Size { width: 200, height: 100 })));
    // Requests for unknown windows go unanswered.
    let r = prism.handle_packet(&mut d, 5, Packet::RequestWindowPosition { window_id: 9 });
    assert_eq!(r, Ok(None));
}

#[test]
fn paint_marks_window_layer() {
    let mut prism = Prism::new();
    let mut d = DisplayServer::new();
    d.setup_renderer(1000, 1000);
    prism
        .handle_packet(&mut d, 5, Packet::Create { width: 200, height: 100, title: None })
        .unwrap();
    d.is_window_dirty = false;
    let r = prism.handle_packet(&mut d, 5, Packet::Paint { window_id: 5, buffer: vec![1, 2] });
    assert_eq!(r, Ok(None));
    assert!(d.is_window_dirty);
}

#[test]
fn server_to_client_packets_are_ignored_by_handler() {
    let mut prism = Prism::new();
    let mut d = DisplayServer::new();
    d.setup_renderer(1000, 1000);
    let r = prism.handle_packet(&mut d, 5, Packet::MouseEnter);
    assert_eq!(r, Ok(None));
    assert!(d.windows.is_empty());
}

#[test]
fn client_accepts_create_success_only() {
    let mut c = Client::new(640, 480);
    assert_eq!(c.get_window_size(), (640, 480));
    assert_eq!(c.get_window_position(), (-1, -1));
    assert!(!c.on_create_reply(&Packet::Closed));
    assert!(c.on_create_reply(&Packet::CreateSuccess { window_id: 42 }));
    assert_eq!(c.close_packet(), Packet::Close { window_id: 42 });
}

#[test]
fn client_version_check_is_exact() {
    assert_eq!(
        Client::on_version_reply(&Packet::APIVersion { major: 0, minor: 0, patch: 1 }),
        VersionCheck::Accept
    );
    // A mismatching version aborts the bringup: the client sends a close
    // for window identifier zero and fails.
    assert_eq!(
        Client::on_version_reply(&Packet::APIVersion { major: 0, minor: 0, patch: 2 }),
        VersionCheck::Mismatch
    );
    assert_eq!(
        Client::on_version_reply(&Packet::APIVersion { major: 1, minor: 0, patch: 1 }),
        VersionCheck::Mismatch
    );
    assert_eq!(
        Client::on_version_reply(&Packet::Closed),
        VersionCheck::Violation
    );
    assert_eq!(Client::handshake_close_packet(), Packet::Close { window_id: 0 });
}

#[test]
fn client_pump_updates_cached_state() {
    let mut c = Client::new(640, 480);
    assert!(c.on_create_reply(&Packet::CreateSuccess { window_id: 42 }));

    // Geometry updates are consumed silently.
    assert!(!c.pump_step(&Packet::Resize { width: 100, height: 200 }));
    assert_eq!(c.get_window_size(), (100, 200));
    assert!(!c.pump_step(&Packet::Position { x: 5, y: 6 }));
    assert_eq!(c.get_window_position(), (5, 6));

    // Other packets go to the callback.
    assert!(c.pump_step(&Packet::MouseEnter));
    assert!(c.should_send_close());

    // `Closed` is both recorded and delivered.
    assert!(c.pump_step(&Packet::Closed));
    assert!(!c.should_send_close());
}
