use wallrus::buffer::{negotiate_format, BufferLayout, SharedBuffer};
use wallrus::client::NativeCompositorClient;
use wallrus::errors::{BufferError, ConnectionStage, Global, NativeError};
use wallrus::native::{
    Action, Event, Globals, Layer, LayerSurfaceRequest, Phase, KEEP_ALIVE_INTERVAL_MS,
    MAX_ATTEMPTS,
};
use wallrus::scaler::{ImageScaler, PixelFormat};
use wallrus::surface::{BufferRef, Surface, SurfaceState};

fn all_globals() -> Globals {
    Globals { compositor: true, shared_memory: true, layer_shell: true, output: true }
}

fn tiny_source() -> ImageScaler {
    let pixels: Vec<u8> = vec![
        255, 0, 0, 255, 0, 255, 0, 255, //
        0, 0, 255, 255, 255, 255, 255, 255,
    ];
    ImageScaler::new(2, 2, pixels).unwrap()
}

fn bound_client() -> NativeCompositorClient {
    let mut client = NativeCompositorClient::new();
    client.dispatch(Event::Connected);
    client.dispatch(Event::Discovered(all_globals()));
    client
}

fn client_with_outputs(outputs: &[u32]) -> NativeCompositorClient {
    let mut client = bound_client();
    for output in outputs {
        client.dispatch(Event::OutputAdded { output: *output });
        client.dispatch(Event::SurfaceCommitted { output: *output });
    }
    client.dispatch(Event::DispatchDone);
    client
}

#[test]
fn new_client_connects_first() {
    let client = NativeCompositorClient::new();
    assert_eq!(client.phase(), Phase::Connect);
    assert_eq!(client.next_action(), Action::Connect);
    assert_eq!(client.outcome(), None);
    assert_eq!(client.surfaces().len(), 0);
    assert_eq!(client.attempts(), 0);
    assert!(!client.is_closed());
}

#[test]
fn connection_failure_is_a_connection_error() {
    let mut client = NativeCompositorClient::new();
    client.dispatch(Event::ConnectFailed);
    let error = NativeError::Connection(ConnectionStage::Connect);
    assert_eq!(client.phase(), Phase::Failed(error));
    assert_eq!(client.next_action(), Action::Abandon(error));
    assert_eq!(client.outcome(), Some(Err(error)));
}

#[test]
fn discovery_failure_is_a_connection_error() {
    let mut client = NativeCompositorClient::new();
    client.dispatch(Event::Connected);
    assert_eq!(client.next_action(), Action::Discover);
    client.dispatch(Event::DiscoveryFailed);
    assert_eq!(
        client.outcome(),
        Some(Err(NativeError::Connection(ConnectionStage::Discovery)))
    );
}

#[test]
fn each_missing_global_is_reported() {
    let cases = [
        (Globals { compositor: false, ..all_globals() }, Global::Compositor),
        (Globals { shared_memory: false, ..all_globals() }, Global::SharedMemory),
        (Globals { layer_shell: false, ..all_globals() }, Global::LayerShell),
        (Globals { output: false, ..all_globals() }, Global::Output),
    ];
    for (globals, missing) in cases {
        assert_eq!(globals.negotiate(), Err(NativeError::ProtocolNegotiation(missing)));
    }
    assert_eq!(all_globals().negotiate(), Ok(()));
    let none = Globals { compositor: false, shared_memory: false, layer_shell: false, output: false };
    assert_eq!(none.negotiate(), Err(NativeError::ProtocolNegotiation(Global::Compositor)));
}

#[test]
fn missing_layer_shell_aborts_before_any_surface() {
    let mut client = NativeCompositorClient::new();
    client.dispatch(Event::Connected);
    client.dispatch(Event::Discovered(Globals { layer_shell: false, ..all_globals() }));
    let error = NativeError::ProtocolNegotiation(Global::LayerShell);
    assert_eq!(client.next_action(), Action::Abandon(error));
    assert_eq!(client.outcome(), Some(Err(error)));
    let request = client.dispatch(Event::OutputAdded { output: 1 });
    assert_eq!(request, None);
    assert_eq!(client.surfaces().len(), 0);
    assert_eq!(client.outcome(), Some(Err(error)));
}

#[test]
fn new_output_gets_a_background_layer_surface() {
    let mut client = bound_client();
    assert_eq!(client.next_action(), Action::Roundtrip);
    let request = client.dispatch(Event::OutputAdded { output: 7 });
    assert_eq!(
        request,
        Some(LayerSurfaceRequest {
            output: 7,
            layer: Layer::Background,
            anchor_top: true,
            anchor_bottom: true,
            anchor_left: true,
            anchor_right: true,
            exclusive_zone: -1,
            keyboard_interactive: false,
        })
    );
    assert_eq!(client.surfaces().len(), 1);
    let surface = client.surfaces()[0];
    assert_eq!(surface.state, SurfaceState::Created);
    assert_eq!(surface.output.id, 7);
    assert_eq!(surface.output.width, 0);
    assert_eq!(surface.output.height, 0);
    assert!(!surface.output.configured);
    client.dispatch(Event::SurfaceCommitted { output: 7 });
    assert_eq!(client.surfaces()[0].state, SurfaceState::AwaitingConfigure);
}

#[test]
fn an_output_has_one_surface() {
    let mut client = bound_client();
    assert!(client.dispatch(Event::OutputAdded { output: 7 }).is_some());
    assert!(client.dispatch(Event::OutputAdded { output: 7 }).is_none());
    assert_eq!(client.surfaces().len(), 1);
    assert!(client.dispatch(Event::OutputAdded { output: 8 }).is_some());
    assert_eq!(client.surfaces().len(), 2);
}

#[test]
fn one_output_of_full_hd_gets_a_buffer_of_its_size() {
    let mut client = client_with_outputs(&[1]);
    assert_eq!(client.next_action(), Action::Poll);
    client.dispatch(Event::Configure { output: 1, width: 1920, height: 1080 });
    client.dispatch(Event::DispatchDone);
    assert_eq!(client.attempts(), 1);
    assert_eq!(client.next_action(), Action::Render);

    let scaler = tiny_source();
    let formats = vec![PixelFormat::Xrgb8888, PixelFormat::Argb8888];
    let buffer = client.prepare_buffer(&scaler, &formats).unwrap().unwrap();
    assert_eq!(buffer.len(), 8_294_400);
    assert_eq!(buffer.len(), 1920 * 1080 * 4);
    assert_eq!(buffer.bytes().len(), 8_294_400);
    assert_eq!(buffer.width(), 1920);
    assert_eq!(buffer.height(), 1080);
    assert_eq!(buffer.stride(), 7680);
    assert_eq!(buffer.output(), 1);
    assert_eq!(buffer.serial(), 0);
    assert_eq!(buffer.format(), PixelFormat::Argb8888);
    let surface = client.surfaces()[0];
    assert_eq!(surface.state, SurfaceState::BufferAttached);
    assert_eq!(surface.pending, Some(BufferRef { serial: 0, width: 1920, height: 1080 }));
    assert_eq!(surface.pending, Some(buffer.to_ref()));

    client.dispatch(Event::BufferCommitted { output: 1 });
    let surface = client.surfaces()[0];
    assert_eq!(surface.state, SurfaceState::Committed);
    assert_eq!(surface.pending, None);
    assert_eq!(surface.committed, Some(BufferRef { serial: 0, width: 1920, height: 1080 }));
    assert_eq!(client.next_action(), Action::Roundtrip);
    assert_eq!(client.outcome(), None);
    client.dispatch(Event::DispatchDone);
    assert_eq!(client.phase(), Phase::KeepAlive);
    assert_eq!(client.outcome(), Some(Ok(())));
}

#[test]
fn no_buffer_before_configure() {
    let mut client = client_with_outputs(&[1, 2]);
    let scaler = tiny_source();
    let formats = vec![PixelFormat::Argb8888];
    assert!(matches!(client.prepare_buffer(&scaler, &formats), Ok(None)));
    assert_eq!(client.phase(), Phase::WaitPoll);
    client.dispatch(Event::Configure { output: 2, width: 4, height: 3 });
    client.dispatch(Event::DispatchDone);
    client.dispatch(Event::DispatchDone);
    client.dispatch(Event::DispatchDone);
    while client.next_action() == Action::Poll || client.next_action() == Action::Block {
        client.dispatch(Event::DispatchDone);
    }
    assert_eq!(client.next_action(), Action::Render);
    let buffer = client.prepare_buffer(&scaler, &formats).unwrap().unwrap();
    assert_eq!(buffer.output(), 2);
    assert_eq!(buffer.len(), 48);
    for surface in client.surfaces() {
        if surface.pending.is_some() || surface.committed.is_some() {
            assert!(surface.output.configured);
        }
    }
    assert_eq!(client.surfaces()[0].state, SurfaceState::AwaitingConfigure);
    assert_eq!(client.surfaces()[0].pending, None);
    client.dispatch(Event::BufferCommitted { output: 2 });
    assert_eq!(client.next_action(), Action::Roundtrip);
}

#[test]
fn wait_gives_up_after_the_bound() {
    let mut client = client_with_outputs(&[1]);
    let mut polls = 0;
    let mut blocks = 0;
    loop {
        match client.next_action() {
            Action::Poll => polls += 1,
            Action::Block => blocks += 1,
            _ => break,
        }
        client.dispatch(Event::DispatchDone);
    }
    assert_eq!(MAX_ATTEMPTS, 10);
    assert_eq!(polls, 10);
    assert_eq!(blocks, 9);
    assert_eq!(client.attempts(), 10);
    assert_eq!(client.next_action(), Action::Abandon(NativeError::ConfigureTimeout));
    assert_eq!(client.outcome(), Some(Err(NativeError::ConfigureTimeout)));
    assert_eq!(client.surfaces()[0].state, SurfaceState::Failed);
}

#[test]
fn wait_polls_then_blocks_when_nothing_is_configured() {
    let mut client = client_with_outputs(&[1]);
    assert_eq!(client.next_action(), Action::Poll);
    client.dispatch(Event::DispatchDone);
    assert_eq!(client.next_action(), Action::Block);
    client.dispatch(Event::DispatchDone);
    assert_eq!(client.next_action(), Action::Poll);
    assert_eq!(client.attempts(), 1);
}

#[test]
fn no_outputs_is_a_configure_timeout() {
    let client = client_with_outputs(&[]);
    assert_eq!(client.outcome(), Some(Err(NativeError::ConfigureTimeout)));
}

#[test]
fn dispatch_failure_while_waiting_fails_the_client() {
    let mut client = client_with_outputs(&[1]);
    client.dispatch(Event::DispatchFailed);
    assert_eq!(
        client.outcome(),
        Some(Err(NativeError::Connection(ConnectionStage::ConfigureWait)))
    );
    let mut client = bound_client();
    client.dispatch(Event::DispatchFailed);
    assert_eq!(client.outcome(), Some(Err(NativeError::Connection(ConnectionStage::Enumerate))));
}

#[test]
fn closing_the_last_surface_ends_the_wait() {
    let mut client = client_with_outputs(&[1]);
    client.dispatch(Event::Closed { output: 1 });
    assert!(client.is_closed());
    assert_eq!(client.surfaces().len(), 0);
    client.dispatch(Event::DispatchDone);
    assert_eq!(client.next_action(), Action::Block);
    client.dispatch(Event::DispatchDone);
    assert_eq!(client.attempts(), 1);
    assert_eq!(client.outcome(), Some(Err(NativeError::ConfigureTimeout)));
}

#[test]
fn removed_output_loses_its_surface() {
    let mut client = client_with_outputs(&[1, 2, 3]);
    client.dispatch(Event::OutputRemoved { output: 2 });
    let left: Vec<u32> = client.surfaces().iter().map(|surface| surface.output.id).collect();
    assert_eq!(left, vec![1, 3]);
    assert!(!client.is_closed());
    client.dispatch(Event::OutputRemoved { output: 9 });
    assert_eq!(client.surfaces().len(), 2);
}

fn committed_client() -> NativeCompositorClient {
    let mut client = client_with_outputs(&[1]);
    client.dispatch(Event::Configure { output: 1, width: 4, height: 2 });
    client.dispatch(Event::DispatchDone);
    let scaler = tiny_source();
    client.prepare_buffer(&scaler, &vec![PixelFormat::Argb8888]).unwrap().unwrap();
    client.dispatch(Event::BufferCommitted { output: 1 });
    client.dispatch(Event::DispatchDone);
    client
}

#[test]
fn keep_alive_polls_and_rests() {
    let mut client = committed_client();
    assert_eq!(client.next_action(), Action::Poll);
    client.dispatch(Event::DispatchDone);
    assert_eq!(client.next_action(), Action::Rest { millis: 100 });
    assert_eq!(KEEP_ALIVE_INTERVAL_MS, 100);
    client.dispatch(Event::Rested);
    assert_eq!(client.next_action(), Action::Poll);
    client.dispatch(Event::DispatchFailed);
    assert_eq!(client.next_action(), Action::Terminate);
    assert_eq!(client.phase(), Phase::Terminated);
    assert_eq!(client.outcome(), Some(Ok(())));
    assert_eq!(client.surfaces()[0].state, SurfaceState::Committed);
}

#[test]
fn flush_failure_terminates() {
    let mut client = client_with_outputs(&[1]);
    client.dispatch(Event::Configure { output: 1, width: 4, height: 2 });
    client.dispatch(Event::DispatchDone);
    let scaler = tiny_source();
    client.prepare_buffer(&scaler, &vec![PixelFormat::Argb8888]).unwrap().unwrap();
    client.dispatch(Event::BufferCommitted { output: 1 });
    assert_eq!(client.next_action(), Action::Roundtrip);
    client.dispatch(Event::DispatchFailed);
    assert_eq!(client.next_action(), Action::Terminate);
}

#[test]
fn geometry_change_asks_for_a_new_buffer() {
    let mut client = committed_client();
    client.dispatch(Event::Configure { output: 1, width: 4, height: 2 });
    assert_eq!(client.surfaces()[0].state, SurfaceState::Committed);
    client.dispatch(Event::Configure { output: 1, width: 6, height: 5 });
    let surface = client.surfaces()[0];
    assert_eq!(surface.state, SurfaceState::Configured);
    assert_eq!(surface.pending, None);
    assert_eq!(surface.committed, Some(BufferRef { serial: 0, width: 4, height: 2 }));
    client.dispatch(Event::DispatchDone);
    assert_eq!(client.next_action(), Action::Render);
    let scaler = tiny_source();
    let buffer = client.prepare_buffer(&scaler, &vec![PixelFormat::Argb8888]).unwrap().unwrap();
    assert_eq!(buffer.len(), 6 * 5 * 4);
    assert_eq!(buffer.serial(), 1);
    assert_eq!(buffer.to_ref(), BufferRef { serial: 1, width: 6, height: 5 });
    client.dispatch(Event::BufferCommitted { output: 1 });
    assert_eq!(client.surfaces()[0].committed, Some(BufferRef { serial: 1, width: 6, height: 5 }));
    assert_eq!(client.next_action(), Action::Roundtrip);
    client.dispatch(Event::DispatchDone);
    assert_eq!(client.phase(), Phase::KeepAlive);
}

#[test]
fn surface_with_empty_size_gets_no_buffer() {
    let mut client = client_with_outputs(&[1]);
    client.dispatch(Event::Configure { output: 1, width: 0, height: 0 });
    client.dispatch(Event::DispatchDone);
    assert_eq!(client.next_action(), Action::Roundtrip);
    assert_eq!(client.phase(), Phase::Flush);
    assert_eq!(client.surfaces()[0].state, SurfaceState::Configured);
}

#[test]
fn buffer_errors_fail_the_client() {
    let scaler = tiny_source();

    let mut client = client_with_outputs(&[1]);
    client.dispatch(Event::Configure { output: 1, width: 4, height: 2 });
    client.dispatch(Event::DispatchDone);
    let error = NativeError::Buffer(BufferError::NoCommonFormat);
    assert!(matches!(client.prepare_buffer(&scaler, &vec![]), Err(e) if e == error));
    assert_eq!(client.outcome(), Some(Err(error)));
    assert_eq!(client.surfaces()[0].state, SurfaceState::Failed);

    let mut client = client_with_outputs(&[1]);
    client.dispatch(Event::Configure { output: 1, width: 40000, height: 40000 });
    client.dispatch(Event::DispatchDone);
    let error = NativeError::Buffer(BufferError::TooLarge);
    assert!(
        matches!(client.prepare_buffer(&scaler, &vec![PixelFormat::Argb8888]), Err(e) if e == error)
    );
    assert_eq!(client.outcome(), Some(Err(error)));

    let mut client = client_with_outputs(&[1]);
    client.dispatch(Event::Configure { output: 1, width: 4, height: 2 });
    client.dispatch(Event::DispatchDone);
    client.prepare_buffer(&scaler, &vec![PixelFormat::Argb8888]).unwrap().unwrap();
    client.dispatch(Event::BufferRejected { output: 1 });
    assert_eq!(client.outcome(), Some(Err(NativeError::Buffer(BufferError::Allocation))));
}

#[test]
fn unexpected_events_change_nothing() {
    let mut client = NativeCompositorClient::new();
    client.dispatch(Event::DispatchDone);
    client.dispatch(Event::Rested);
    client.dispatch(Event::Discovered(all_globals()));
    client.dispatch(Event::Configure { output: 1, width: 4, height: 2 });
    assert!(client.dispatch(Event::OutputAdded { output: 1 }).is_none());
    assert_eq!(client.phase(), Phase::Connect);
    assert_eq!(client.surfaces().len(), 0);
}

#[test]
fn surface_walks_through_its_states() {
    let mut surface = Surface::new(3);
    assert_eq!(surface.state, SurfaceState::Created);
    surface.configure(10, 10);
    assert_eq!(surface.state, SurfaceState::Created);
    surface.commit_bare();
    assert_eq!(surface.state, SurfaceState::AwaitingConfigure);
    assert!(!surface.needs_buffer());
    surface.configure(10, 20);
    assert_eq!(surface.state, SurfaceState::Configured);
    assert!(surface.needs_buffer());
    surface.commit_buffer();
    assert_eq!(surface.state, SurfaceState::Configured);
    surface.attach(BufferRef { serial: 5, width: 10, height: 20 });
    assert_eq!(surface.state, SurfaceState::BufferAttached);
    assert!(!surface.needs_buffer());
    surface.commit_buffer();
    assert_eq!(surface.state, SurfaceState::Committed);
    assert_eq!(surface.committed, Some(BufferRef { serial: 5, width: 10, height: 20 }));
    surface.fail();
    assert_eq!(surface.state, SurfaceState::Failed);
    surface.configure(1, 1);
    assert_eq!(surface.state, SurfaceState::Failed);
    assert_eq!(surface.output.width, 10);
}

#[test]
fn format_follows_the_preference() {
    assert_eq!(negotiate_format(&vec![]), None);
    assert_eq!(
        negotiate_format(&vec![PixelFormat::Xbgr8888, PixelFormat::Xrgb8888]),
        Some(PixelFormat::Xrgb8888)
    );
    assert_eq!(
        negotiate_format(&vec![PixelFormat::Xbgr8888, PixelFormat::Abgr8888]),
        Some(PixelFormat::Abgr8888)
    );
    assert_eq!(negotiate_format(&vec![PixelFormat::Xbgr8888]), Some(PixelFormat::Xbgr8888));
    assert_eq!(
        negotiate_format(&vec![PixelFormat::Abgr8888, PixelFormat::Argb8888]),
        Some(PixelFormat::Argb8888)
    );
}

#[test]
fn shared_buffer_refuses_what_cannot_be_held() {
    let scaler = tiny_source();
    assert!(matches!(
        SharedBuffer::render(0, 1, &scaler, 0, 10, PixelFormat::Argb8888),
        Err(BufferError::EmptyGeometry)
    ));
    assert!(matches!(
        SharedBuffer::render(0, 1, &scaler, 10, 0, PixelFormat::Argb8888),
        Err(BufferError::EmptyGeometry)
    ));
    assert!(matches!(
        SharedBuffer::render(0, 1, &scaler, 65536, 65536, PixelFormat::Argb8888),
        Err(BufferError::TooLarge)
    ));
    let buffer = SharedBuffer::render(9, 4, &scaler, 3, 5, PixelFormat::Abgr8888).unwrap();
    assert_eq!(buffer.len(), 60);
    assert_eq!(buffer.stride(), 12);
    assert_eq!(
        buffer.layout(),
        BufferLayout {
            offset: 0,
            width: 3,
            height: 5,
            stride: 12,
            attach_x: 0,
            attach_y: 0,
            damage_x: 0,
            damage_y: 0,
            damage_width: 3,
            damage_height: 5,
        }
    );
    assert_eq!(buffer.serial(), 9);
    assert_eq!(buffer.output(), 4);
}
