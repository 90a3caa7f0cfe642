use rift_game::character::Gender;
use rift_game::character_select::{FrameInput, SelectAction, SelectButton, SelectScreen, SelectView};

fn click(b: SelectButton) -> FrameInput {
    FrameInput { typed: Vec::new(), backspaces: 0, enter: false, clicked: Some(b) }
}

fn typing(s: &str, backspaces: usize, enter: bool) -> FrameInput {
    FrameInput { typed: s.chars().collect(), backspaces, enter, clicked: None }
}

fn create(screen: &mut SelectScreen, name: &str) {
    assert!(matches!(screen.step(click(SelectButton::CreateNew)), SelectAction::Stay));
    assert!(matches!(screen.step(typing(name, 0, true)), SelectAction::Stay));
}

#[test]
fn create_play_and_delete_a_character() {
    let mut screen = SelectScreen::new();
    assert_eq!(screen.desired_preview_gender(), None);
    screen.step(click(SelectButton::CreateNew));
    assert!(matches!(screen.view, SelectView::Create(_)));
    assert_eq!(screen.desired_preview_gender(), Some(Gender::Female));
    screen.step(typing("  Ada\u{7}x", 1, false));
    screen.step(click(SelectButton::Male));
    match &screen.view {
        SelectView::Create(f) => {
            assert_eq!(f.name.iter().collect::<String>(), "  Ada");
            assert_eq!(f.gender, Gender::Male);
        }
        _ => panic!("expected the create form"),
    }
    screen.step(click(SelectButton::Confirm));
    assert!(matches!(screen.view, SelectView::Roster));
    assert_eq!(screen.roster.len(), 1);
    assert_eq!(screen.roster.slots()[0].name, "Ada");
    assert_eq!(screen.roster.slots()[0].gender, Gender::Male);
    assert_eq!(screen.desired_preview_gender(), Some(Gender::Male));

    match screen.step(click(SelectButton::Play(0))) {
        SelectAction::Play(p) => assert_eq!(p.name, "Ada"),
        _ => panic!("expected Play"),
    }
    assert!(matches!(screen.step(click(SelectButton::Play(3))), SelectAction::Stay));

    screen.step(click(SelectButton::Delete(0)));
    assert!(matches!(screen.view, SelectView::DeleteConfirm { idx: 0 }));
    screen.step(click(SelectButton::DeleteNo));
    assert_eq!(screen.roster.len(), 1);
    screen.step(click(SelectButton::Delete(0)));
    screen.step(click(SelectButton::DeleteYes));
    assert!(matches!(screen.view, SelectView::Roster));
    assert_eq!(screen.roster.len(), 0);
    assert!(matches!(screen.step(click(SelectButton::Quit)), SelectAction::Quit));
}

#[test]
fn names_are_capped_and_blank_names_cannot_be_confirmed() {
    let mut screen = SelectScreen::new();
    screen.step(click(SelectButton::CreateNew));
    screen.step(typing("   \t ", 0, true));
    screen.step(click(SelectButton::Confirm));
    assert!(matches!(screen.view, SelectView::Create(_)));
    assert_eq!(screen.roster.len(), 0);
    screen.step(typing("abcdefghijklmnopqrstuvwxyz", 0, false));
    match &screen.view {
        SelectView::Create(f) => assert_eq!(f.name.len(), 18),
        _ => panic!("expected the create form"),
    }
    screen.step(click(SelectButton::Cancel));
    assert!(matches!(screen.view, SelectView::Roster));
    assert_eq!(screen.roster.len(), 0);
}

#[test]
fn a_full_roster_offers_no_new_slot() {
    let mut screen = SelectScreen::new();
    for name in ["A", "B", "C", "D", "E"] {
        create(&mut screen, name);
    }
    assert_eq!(screen.roster.len(), 5);
    screen.step(click(SelectButton::CreateNew));
    assert!(matches!(screen.view, SelectView::Roster));
    screen.step(click(SelectButton::ClassNext));
    assert_eq!(screen.roster.slots()[4].name, "E");
}
