use status_display::error::FatalError;
use status_display::screen::{
    halve, Alignment, Cursor, Font, FrameAction, FrameEvent, InfoScreen, Line, FRAME_INTERVAL_MS,
    MESSAGE_COUNT,
};

fn drawn(x: i32, y: i32) -> FrameEvent {
    FrameEvent::Drawn { end: Cursor { x, y } }
}

/// Runs one whole frame and returns the message that it showed.
fn frame(screen: &mut InfoScreen) -> usize {
    assert_eq!(screen.begin_frame(), FrameAction::Clear);
    assert!(matches!(screen.advance(FrameEvent::Cleared), Ok(FrameAction::Draw { .. })));
    assert!(matches!(screen.advance(drawn(50, 12)), Ok(FrameAction::Draw { .. })));
    assert!(matches!(screen.advance(drawn(126, 12)), Ok(FrameAction::Draw { .. })));
    let shown = match screen.advance(drawn(122, 30)) {
        Ok(FrameAction::Draw { line: Line::Message { index }, .. }) => index,
        other => panic!("no message: {:?}", other),
    };
    assert_eq!(screen.advance(drawn(100, 56)), Ok(FrameAction::Flush));
    shown
}

#[test]
fn default_screen_begins_with_the_first_message() {
    assert_eq!(InfoScreen::default().message_index(), 0);
}

#[test]
fn frame_places_each_line_after_the_one_before() {
    let mut screen = InfoScreen::default();
    assert_eq!(screen.begin_frame(), FrameAction::Clear);
    assert_eq!(
        screen.advance(FrameEvent::Cleared),
        Ok(FrameAction::Draw {
            line: Line::FirstName,
            at: Cursor { x: 0, y: 12 },
            font: Font::Large,
            alignment: Alignment::Left,
        })
    );
    // Five glyphs of ten pixels.
    assert_eq!(
        screen.advance(drawn(50, 12)),
        Ok(FrameAction::Draw {
            line: Line::LastName,
            at: Cursor { x: 54, y: 12 },
            font: Font::Medium,
            alignment: Alignment::Left,
        })
    );
    // Nine glyphs of eight pixels; the baseline is 10 pixels down.
    assert_eq!(
        screen.advance(drawn(126, 12)),
        Ok(FrameAction::Draw {
            line: Line::Email,
            at: Cursor { x: 62, y: 30 },
            font: Font::Medium,
            alignment: Alignment::Center,
        })
    );
    assert_eq!(
        screen.advance(drawn(122, 30)),
        Ok(FrameAction::Draw {
            line: Line::Message { index: 0 },
            at: Cursor { x: 63, y: 56 },
            font: Font::Medium,
            alignment: Alignment::Center,
        })
    );
    assert_eq!(screen.advance(drawn(100, 56)), Ok(FrameAction::Flush));
    assert_eq!(screen.message_index(), 1);
}

#[test]
fn messages_rotate_one_per_frame() {
    assert_eq!(MESSAGE_COUNT, 4);
    let mut screen = InfoScreen::default();
    let shown: Vec<usize> = (0..9).map(|_| frame(&mut screen)).collect();
    assert_eq!(shown, vec![0, 1, 2, 3, 0, 1, 2, 3, 0]);
    assert_eq!(screen.message_index(), 1);
}

#[test]
fn message_moves_on_only_when_the_frame_is_complete() {
    let mut screen = InfoScreen::default();
    screen.begin_frame();
    assert!(screen.advance(FrameEvent::Cleared).is_ok());
    assert!(screen.advance(drawn(50, 12)).is_ok());
    assert_eq!(screen.message_index(), 0);
    // The frame is given up and begun again.
    assert_eq!(frame(&mut screen), 0);
    assert_eq!(screen.message_index(), 1);
}

#[test]
fn device_error_is_fatal_at_every_stage() {
    for reached in 0..5usize {
        let mut screen = InfoScreen::default();
        screen.begin_frame();
        let events = [FrameEvent::Cleared, drawn(50, 12), drawn(126, 12), drawn(122, 30)];
        for event in events.iter().take(reached) {
            assert!(screen.advance(*event).is_ok());
        }
        assert_eq!(screen.advance(FrameEvent::DeviceError), Err(FatalError::UnrecoverableFault));
        assert_eq!(screen.message_index(), 0);
        // The frame is over: nothing more is drawn until the next one begins.
        assert_eq!(screen.advance(drawn(0, 0)), Err(FatalError::UnrecoverableFault));
    }
}

#[test]
fn event_out_of_turn_is_a_fault() {
    let mut screen = InfoScreen::default();
    assert_eq!(screen.advance(FrameEvent::Cleared), Err(FatalError::UnrecoverableFault));
    screen.begin_frame();
    assert_eq!(screen.advance(drawn(1, 1)), Err(FatalError::UnrecoverableFault));
    screen.begin_frame();
    assert!(screen.advance(FrameEvent::Cleared).is_ok());
    assert_eq!(screen.advance(FrameEvent::Cleared), Err(FatalError::UnrecoverableFault));
}

#[test]
fn coordinate_out_of_range_is_a_fault() {
    let mut screen = InfoScreen::default();
    screen.begin_frame();
    assert!(screen.advance(FrameEvent::Cleared).is_ok());
    assert_eq!(screen.advance(drawn(i32::MAX - 3, 12)), Err(FatalError::UnrecoverableFault));

    screen.begin_frame();
    assert!(screen.advance(FrameEvent::Cleared).is_ok());
    assert_eq!(
        screen.advance(drawn(i32::MAX - 4, 12)),
        Ok(FrameAction::Draw {
            line: Line::LastName,
            at: Cursor { x: i32::MAX, y: 12 },
            font: Font::Medium,
            alignment: Alignment::Left,
        })
    );
    assert_eq!(screen.advance(drawn(0, i32::MAX - 17)), Err(FatalError::UnrecoverableFault));

    screen.begin_frame();
    assert!(screen.advance(FrameEvent::Cleared).is_ok());
    assert!(screen.advance(drawn(50, 12)).is_ok());
    assert_eq!(
        screen.advance(drawn(-7, i32::MAX - 18)),
        Ok(FrameAction::Draw {
            line: Line::Email,
            at: Cursor { x: -4, y: i32::MAX },
            font: Font::Medium,
            alignment: Alignment::Center,
        })
    );
    assert_eq!(screen.advance(drawn(0, i32::MAX - 25)), Err(FatalError::UnrecoverableFault));
}

#[test]
fn frames_come_every_900_milliseconds() {
    assert_eq!(FRAME_INTERVAL_MS, 900);
}

#[test]
fn halve_rounds_towards_zero() {
    assert_eq!(halve(0), 0);
    assert_eq!(halve(1), 0);
    assert_eq!(halve(126), 63);
    assert_eq!(halve(127), 63);
    assert_eq!(halve(-1), 0);
    assert_eq!(halve(-7), -3);
    assert_eq!(halve(-8), -4);
    assert_eq!(halve(i32::MAX), 1_073_741_823);
    assert_eq!(halve(i32::MIN), -1_073_741_824);
}
