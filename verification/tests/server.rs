use splatcom::message::{ImageRequest, ImageResponse, RenderJob};
use splatcom::server::{LoopAction, LoopEvent, RenderServer};

fn job(id: u64) -> RenderJob {
    let (tx, _rx) = tokio::sync::oneshot::channel::<ImageResponse>();
    RenderJob::new(ImageRequest { request_id: id, ..ImageRequest::default() }, tx)
}

fn rendered_id(action: LoopAction) -> Option<u64> {
    match action {
        LoopAction::Render(job) => Some(job.into_parts().0.get_id()),
        _ => None,
    }
}

fn render_cycle(server: &mut RenderServer) -> Option<u64> {
    let id = rendered_id(server.next_action(LoopEvent::Ready));
    if id.is_some() {
        assert!(matches!(server.next_action(LoopEvent::RenderDone), LoopAction::Reply));
    }
    id
}

#[test]
fn new_server_is_empty_and_running() {
    let server = RenderServer::new();
    assert_eq!(server.len(), 0);
    assert!(!server.shutdown_requested());
}

#[test]
fn jobs_are_rendered_in_arrival_order() {
    let mut server = RenderServer::new();
    server.push_job(job(1));
    server.push_job(job(2));
    server.push_job(job(3));
    assert_eq!(server.len(), 3);
    assert_eq!(render_cycle(&mut server), Some(1));
    server.push_job(job(4));
    assert_eq!(render_cycle(&mut server), Some(2));
    assert_eq!(render_cycle(&mut server), Some(3));
    assert_eq!(render_cycle(&mut server), Some(4));
    assert!(matches!(server.next_action(LoopEvent::Ready), LoopAction::Idle));
    assert_eq!(server.len(), 0);
}

#[test]
fn one_render_at_a_time() {
    let mut server = RenderServer::new();
    server.push_job(job(1));
    server.push_job(job(2));
    assert_eq!(rendered_id(server.next_action(LoopEvent::Ready)), Some(1));
    assert!(matches!(server.next_action(LoopEvent::Ready), LoopAction::Idle));
    assert_eq!(server.len(), 1);
    assert!(matches!(server.next_action(LoopEvent::RenderDone), LoopAction::Reply));
    assert!(matches!(server.next_action(LoopEvent::RenderDone), LoopAction::Idle));
    assert_eq!(rendered_id(server.next_action(LoopEvent::Ready)), Some(2));
}

#[test]
fn interrupt_stops_before_waiting_jobs() {
    let mut server = RenderServer::new();
    server.push_job(job(1));
    assert!(matches!(server.next_action(LoopEvent::Interrupt), LoopAction::Stop));
    assert!(server.shutdown_requested());
    assert_eq!(server.len(), 1);
    assert!(matches!(server.next_action(LoopEvent::Ready), LoopAction::Stop));
    assert_eq!(server.len(), 1);
    server.push_job(job(2));
    assert!(server.shutdown_requested());
}

#[test]
fn interrupt_during_render_abandons_it() {
    let mut server = RenderServer::new();
    server.push_job(job(1));
    server.push_job(job(2));
    assert_eq!(rendered_id(server.next_action(LoopEvent::Ready)), Some(1));
    assert!(matches!(server.next_action(LoopEvent::Interrupt), LoopAction::Stop));
    assert!(matches!(server.next_action(LoopEvent::RenderDone), LoopAction::Stop));
    assert!(matches!(server.next_action(LoopEvent::Ready), LoopAction::Stop));
    assert_eq!(server.len(), 1);
}
