use blured::renderer::{render_result, RenderResult, Renderer, RendererError, RendererImpl};

fn names(v: &[&str]) -> Vec<String> {
    v.iter().map(|s| s.to_string()).collect()
}

#[test]
fn new_renderer_state() {
    let r = RendererImpl::new(names(&["a", "b"]));
    assert_eq!(r.current_scene(), Some(0));
    assert_eq!(r.scene_count(), 2);
    let e = RendererImpl::new(vec![]);
    assert_eq!(e.current_scene(), None);
}

#[test]
fn switch_scene_by_name() {
    let mut r = RendererImpl::new(names(&["a", "b", "c"]));
    assert!(r.take_scene_out_of_date());
    assert!(!r.take_scene_out_of_date());
    assert_eq!(r.switch_scene("c"), Ok(2));
    assert_eq!(r.current_scene(), Some(2));
    assert!(r.take_scene_out_of_date());
    assert_eq!(r.switch_scene("x"), Err(RendererError::NoSuchScene));
    assert_eq!(r.current_scene(), Some(2));
    assert!(!r.take_scene_out_of_date());
}

#[test]
fn next_scene_wraps_around() {
    let mut r = RendererImpl::new(names(&["a", "b", "c"]));
    assert_eq!(r.next_scene(), 1);
    assert_eq!(r.next_scene(), 2);
    assert_eq!(r.next_scene(), 0);
}

#[test]
fn next_scene_with_repeated_name_jumps_to_first() {
    let mut r = RendererImpl::new(names(&["a", "b", "a"]));
    assert_eq!(r.next_scene(), 1);
    assert_eq!(r.next_scene(), 0);
}

#[test]
fn effect_toggles() {
    let mut r = RendererImpl::new(names(&["a"]));
    assert!(r.toggle_effect());
    assert!(!r.toggle_effect());
    r.set_effect(true);
    assert!(!r.toggle_effect());
}

#[test]
fn render_results() {
    assert_eq!(render_result(true, false), RenderResult::Clean);
    assert_eq!(render_result(false, false), RenderResult::OutOfDate);
    assert_eq!(render_result(true, true), RenderResult::OutOfDate);
}

#[test]
fn uninitialized_renderer_refuses() {
    let mut r = Renderer::new();
    assert!(!r.needs_render());
    assert_eq!(r.next_scene(), Err(RendererError::NotInitialized));
    assert_eq!(r.switch_scene("a"), Err(RendererError::NotInitialized));
    assert_eq!(r.set_effect_on(true), Err(RendererError::NotInitialized));
    assert_eq!(r.toggle_effect(), Err(RendererError::NotInitialized));
    assert!(!r.needs_render());
}

#[test]
fn renderer_requests_mark_out_of_date() {
    let mut r = Renderer::new();
    r.init(names(&["a", "b"]));
    assert!(r.needs_render());
    r.record_render(RenderResult::OutOfDate);
    assert!(r.needs_render());
    r.record_render(RenderResult::Clean);
    assert!(!r.needs_render());
    assert_eq!(r.next_scene(), Ok("b".to_string()));
    assert!(r.needs_render());
    r.record_render(RenderResult::Clean);
    assert_eq!(r.switch_scene("zzz"), Err(RendererError::NoSuchScene));
    assert!(!r.needs_render());
    assert_eq!(r.switch_scene("a"), Ok(()));
    assert!(r.needs_render());
    r.record_render(RenderResult::Clean);
    assert_eq!(r.toggle_effect(), Ok(true));
    assert!(r.needs_render());
    r.record_render(RenderResult::Clean);
    assert_eq!(r.set_effect_on(false), Ok(()));
    assert!(r.needs_render());
}

#[test]
fn next_scene_cycles_back() {
    let mut r = RendererImpl::new(names(&["a", "b", "c", "d"]));
    assert_eq!(r.switch_scene("c"), Ok(2));
    let mut seen = vec![];
    for _ in 0..4 {
        seen.push(r.next_scene());
    }
    assert_eq!(seen, vec![3, 0, 1, 2]);
    assert_eq!(r.current_scene(), Some(2));
}
