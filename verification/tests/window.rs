use purpl_render::video::{Event, State};

#[test]
fn new_window_is_two_thirds_of_the_screen_high_and_sixteen_to_nine() {
    let window = State::init(1080);
    assert_eq!(window.get_size(), (1280, 720));
    assert!(!window.focused());
    let window = State::init(1440);
    assert_eq!(window.get_size(), (1706, 960));
    let window = State::init(0);
    assert_eq!(window.get_size(), (0, 0));
    let window = State::init(u16::MAX);
    assert_eq!(window.get_size(), (77671, 43690));
}

#[test]
fn new_window_size_is_what_division_by_one_and_a_half_gives() {
    for screen_height in 0..=u16::MAX {
        let height = (screen_height as f32 / 1.5) as u32;
        let width = height * 16 / 9;
        assert_eq!(State::init(screen_height).get_size(), (width, height));
    }
}

#[test]
fn resize_is_reported_once() {
    let mut window = State::init(1080);
    assert!(!window.resized());
    assert!(window.update(Some(Event::Configure { width: 1920, height: 1080 })));
    assert_eq!(window.get_size(), (1920, 1080));
    assert!(window.resized());
    assert!(!window.resized());
    assert_eq!(window.get_size(), (1920, 1080));
}

#[test]
fn configure_with_the_same_size_is_no_resize() {
    let mut window = State::init(1080);
    window.update(Some(Event::Configure { width: 1280, height: 720 }));
    assert!(!window.resized());
    window.update(Some(Event::Configure { width: 1280, height: 721 }));
    assert!(window.resized());
    window.update(Some(Event::Configure { width: 1281, height: 721 }));
    assert!(window.resized());
}

#[test]
fn focus_follows_the_events() {
    let mut window = State::init(1080);
    window.update(Some(Event::FocusIn));
    assert!(window.focused());
    window.update(Some(Event::Other));
    window.update(None);
    assert!(window.focused());
    window.update(Some(Event::FocusOut));
    assert!(!window.focused());
}

#[test]
fn window_closes_on_the_delete_message() {
    let mut window = State::init(1080);
    assert!(window.update(None));
    assert!(window.update(Some(Event::ClientMessage { atom: 5, delete_atom: 6 })));
    assert!(!window.update(Some(Event::ClientMessage { atom: 6, delete_atom: 6 })));
    assert!(!window.update(None));
    assert!(!window.update(Some(Event::FocusIn)));
    assert!(window.update(Some(Event::ClientMessage { atom: 1, delete_atom: 6 })));
}
