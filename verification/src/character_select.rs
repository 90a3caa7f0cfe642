//! Character-select screen state: the roster view, the creation form and
//! the delete confirmation, and how one frame of input moves between
//! them. Where the pointer is, and which button it is over, is the
//! host's business; the screen takes the button that was clicked.

use vstd::prelude::*;

use crate::character::{CharacterProfile, CharacterRoster, Gender, MAX_CHARACTERS};
use crate::text::string_from_chars;

verus! {

/// Longest name, in characters, the creation form accepts.
pub const NAME_MAX_CHARS: usize = 18;

/// Number of classes the creation form cycles through.
pub const CLASS_COUNT: usize = 1;

/// What the screen wants the surrounding game to do this frame.
pub enum SelectAction {
    /// No state change; keep rendering the screen.
    Stay,
    /// User confirmed a slot to play.
    Play(CharacterProfile),
    /// User wants to leave the game entirely.
    Quit,
}

/// The character-creation form state: the name being typed, the chosen
/// gender and the selected class index.
pub struct CreateForm {
    pub name: Vec<char>,
    pub gender: Gender,
    pub class_idx: usize,
}

impl CreateForm {
    /// An empty form: no name yet, female preview, first class.
    pub fn new() -> (r: Self)
        ensures
            r.name@.len() == 0,
            r.gender == Gender::Female,
            r.class_idx == 0,
    {
        CreateForm { name: Vec::new(), gender: Gender::Female, class_idx: 0 }
    }
}

/// The sub-view the screen is in.
pub enum SelectView {
    /// Roster list with Create / Play / Delete buttons.
    Roster,
    /// Filling out the create form.
    Create(CreateForm),
    /// Confirming deletion of roster slot `idx`.
    DeleteConfirm { idx: usize },
}

/// A button of the screen.
#[derive(Clone, Copy, Debug, PartialEq, Eq, Structural)]
pub enum SelectButton {
    /// Play the character in roster slot `i`.
    Play(usize),
    /// Ask to delete the character in roster slot `i`.
    Delete(usize),
    /// The create-new placeholder row.
    CreateNew,
    /// Leave the game.
    Quit,
    /// Gender toggles on the create form.
    Male,
    Female,
    /// Class cycler arrows.
    ClassPrev,
    ClassNext,
    /// Create the character.
    Confirm,
    /// Back to the roster without creating.
    Cancel,
    /// Delete confirmation: yes / no.
    DeleteYes,
    DeleteNo,
}

/// One frame of input: characters typed, backspaces pressed, whether
/// Enter went down, and the button clicked, if any.
pub struct FrameInput {
    pub typed: Vec<char>,
    pub backspaces: usize,
    pub enter: bool,
    pub clicked: Option<SelectButton>,
}

/// Unicode general category Cc: U+0000..=U+001F and U+007F..=U+009F.
pub open spec fn spec_is_control(c: char) -> bool {
    (c as u32) <= 0x1F || (0x7F <= (c as u32) && (c as u32) <= 0x9F)
}

/// The Unicode `White_Space` property.
pub open spec fn spec_is_whitespace(c: char) -> bool {
    let u = c as u32;
    ||| 0x9 <= u && u <= 0xD
    ||| u == 0x20 || u == 0x85 || u == 0xA0 || u == 0x1680
    ||| 0x2000 <= u && u <= 0x200A
    ||| u == 0x2028 || u == 0x2029 || u == 0x202F || u == 0x205F || u == 0x3000
}

pub fn is_control(c: char) -> (r: bool)
    ensures
        r == spec_is_control(c),
{
    let u = c as u32;
    u <= 0x1F || (0x7F <= u && u <= 0x9F)
}

pub fn is_whitespace(c: char) -> (r: bool)
    ensures
        r == spec_is_whitespace(c),
{
    let u = c as u32;
    (0x9 <= u && u <= 0xD) || u == 0x20 || u == 0x85 || u == 0xA0 || u == 0x1680 || (0x2000 <= u
        && u <= 0x200A) || u == 0x2028 || u == 0x2029 || u == 0x202F || u == 0x205F || u == 0x3000
}

/// The name after typing `typed`: each character is appended unless it
/// is a control character or the name already holds
/// [`NAME_MAX_CHARS`] characters.
pub open spec fn spec_type_chars(name: Seq<char>, typed: Seq<char>) -> Seq<char>
    decreases typed.len(),
{
    if typed.len() == 0 {
        name
    } else {
        let prev = spec_type_chars(name, typed.drop_last());
        let c = typed.last();
        if prev.len() < NAME_MAX_CHARS && !spec_is_control(c) {
            prev.push(c)
        } else {
            prev
        }
    }
}

/// The name after `n` backspaces, each removing the last character.
pub open spec fn spec_backspace(name: Seq<char>, n: nat) -> Seq<char> {
    if n >= name.len() {
        Seq::empty()
    } else {
        name.take(name.len() - n)
    }
}

/// `s` without leading whitespace.
pub open spec fn spec_trim_start(s: Seq<char>) -> Seq<char>
    decreases s.len(),
{
    if s.len() > 0 && spec_is_whitespace(s[0]) {
        spec_trim_start(s.drop_first())
    } else {
        s
    }
}

/// `s` without trailing whitespace.
pub open spec fn spec_trim_end(s: Seq<char>) -> Seq<char>
    decreases s.len(),
{
    if s.len() > 0 && spec_is_whitespace(s.last()) {
        spec_trim_end(s.drop_last())
    } else {
        s
    }
}

/// `s` without leading or trailing whitespace.
pub open spec fn spec_trim(s: Seq<char>) -> Seq<char> {
    spec_trim_end(spec_trim_start(s))
}

proof fn lemma_trim_start_skip(s: Seq<char>, i: int)
    requires
        0 <= i < s.len(),
        spec_is_whitespace(s[i]),
    ensures
        spec_trim_start(s.skip(i)) == spec_trim_start(s.skip(i + 1)),
{
    assert(s.skip(i).drop_first() =~= s.skip(i + 1));
}

proof fn lemma_trim_end_take(s: Seq<char>, lo: int, j: int)
    requires
        0 <= lo < j <= s.len(),
        spec_is_whitespace(s[j - 1]),
    ensures
        spec_trim_end(s.subrange(lo, j)) == spec_trim_end(s.subrange(lo, j - 1)),
{
    assert(s.subrange(lo, j).drop_last() =~= s.subrange(lo, j - 1));
}

/// `name` without leading or trailing whitespace.
pub fn trim_chars(name: &Vec<char>) -> (r: Vec<char>)
    ensures
        r@ == spec_trim(name@),
{
    let n = name.len();
    let mut i: usize = 0;
    proof {
        assert(name@.skip(0) =~= name@);
    }
    while i < n && is_whitespace(name[i])
        invariant
            n == name@.len(),
            i <= n,
            spec_trim_start(name@) == spec_trim_start(name@.skip(i as int)),
        decreases n - i,
    {
        proof {
            lemma_trim_start_skip(name@, i as int);
        }
        i = i + 1;
    }
    proof {
        assert(spec_trim_start(name@) == name@.skip(i as int));
        assert(name@.skip(i as int) =~= name@.subrange(i as int, n as int));
    }
    let mut j: usize = n;
    while j > i && is_whitespace(name[j - 1])
        invariant
            n == name@.len(),
            i <= j <= n,
            spec_trim(name@) == spec_trim_end(name@.subrange(i as int, j as int)),
        decreases j,
    {
        proof {
            lemma_trim_end_take(name@, i as int, j as int);
        }
        j = j - 1;
    }
    let mut r: Vec<char> = Vec::new();
    let mut k: usize = i;
    while k < j
        invariant
            n == name@.len(),
            i <= k <= j <= n,
            r@ == name@.subrange(i as int, k as int),
        decreases j - k,
    {
        r.push(name[k]);
        proof {
            assert(name@.subrange(i as int, k as int + 1) =~= name@.subrange(i as int, k as int).push(name@[k as int]));
        }
        k = k + 1;
    }
    r
}

/// Two profiles with the same name, look, level and gear.
pub open spec fn spec_same_profile(a: CharacterProfile, b: CharacterProfile) -> bool {
    &&& a.name@ == b.name@
    &&& a.gender == b.gender
    &&& a.appearance == b.appearance
    &&& a.level == b.level
    &&& a.equipped_base_ids@ == b.equipped_base_ids@
}

fn copy_profile(p: &CharacterProfile) -> (r: CharacterProfile)
    ensures
        spec_same_profile(r, *p),
{
    let ids = p.equipped_base_ids.clone();
    proof {
        assert(ids@ =~= p.equipped_base_ids@);
    }
    CharacterProfile {
        name: p.name.clone(),
        gender: p.gender,
        appearance: p.appearance,
        level: p.level,
        equipped_base_ids: ids,
    }
}

/// The screen: the roster and the current sub-view.
pub struct SelectScreen {
    pub roster: CharacterRoster,
    pub view: SelectView,
}

/// Gender after a click on the create form.
pub open spec fn spec_form_gender(g: Gender, clicked: Option<SelectButton>) -> Gender {
    match clicked {
        Some(SelectButton::Male) => Gender::Male,
        Some(SelectButton::Female) => Gender::Female,
        _ => g,
    }
}

/// Class index after a click on the create form's cycler, wrapping
/// around the class list.
pub open spec fn spec_form_class(idx: usize, clicked: Option<SelectButton>) -> usize {
    match clicked {
        Some(SelectButton::ClassPrev) => ((idx + CLASS_COUNT - 1) % (CLASS_COUNT as int)) as usize,
        Some(SelectButton::ClassNext) => ((idx + 1) % (CLASS_COUNT as int)) as usize,
        _ => idx,
    }
}

/// Whether a create-form frame creates the character: the trimmed name
/// is not empty, and Confirm was clicked, or Enter went down without a
/// click on Cancel.
pub open spec fn spec_creates(name: Seq<char>, input: FrameInput) -> bool {
    &&& spec_trim(name).len() > 0
    &&& (input.clicked == Some(SelectButton::Confirm) || (input.clicked != Some(SelectButton::Cancel)
        && input.enter))
}

impl SelectScreen {
    /// The screen's invariant: the roster holds at most
    /// [`MAX_CHARACTERS`] profiles, and a form being filled holds a class
    /// index that names a class.
    pub open spec fn wf(&self) -> bool {
        &&& self.roster@.len() <= MAX_CHARACTERS
        &&& match self.view {
            SelectView::Create(form) => form.class_idx < CLASS_COUNT,
            _ => true,
        }
    }

    /// A fresh screen on the roster view with no characters.
    pub fn new() -> (r: Self)
        ensures
            r.wf(),
            r.roster@.len() == 0,
            r.view is Roster,
    {
        SelectScreen { roster: CharacterRoster::new(), view: SelectView::Roster }
    }

    /// The gender the preview avatar should show: the form's choice
    /// while creating, the first character's on the roster, the
    /// character up for deletion's while confirming.
    pub fn desired_preview_gender(&self) -> (r: Option<Gender>)
        ensures
            r == match self.view {
                SelectView::Create(form) => Some(form.gender),
                SelectView::Roster => if self.roster@.len() > 0 {
                    Some(self.roster@[0].gender)
                } else {
                    None
                },
                SelectView::DeleteConfirm { idx } => if idx < self.roster@.len() {
                    Some(self.roster@[idx as int].gender)
                } else {
                    None
                },
            },
    {
        match &self.view {
            SelectView::Create(form) => Some(form.gender),
            SelectView::Roster => match self.roster.get(0) {
                Some(p) => Some(p.gender),
                None => None,
            },
            SelectView::DeleteConfirm { idx } => match self.roster.get(*idx) {
                Some(p) => Some(p.gender),
                None => None,
            },
        }
    }

    /// The name a create form holds after this frame's typing and
    /// backspaces.
    pub open spec fn spec_edited_name(name: Seq<char>, input: FrameInput) -> Seq<char> {
        spec_backspace(spec_type_chars(name, input.typed@), input.backspaces as nat)
    }

    /// Run one frame of input and say what the game should do.
    ///
    /// Roster view: Play on an occupied slot plays a copy of that
    /// profile; Delete on an occupied slot asks for confirmation;
    /// CreateNew opens an empty form unless the roster is full; Quit
    /// quits. Create view: typing and backspaces edit the name, the
    /// toggles and arrows set gender and class; a create (see
    /// [`spec_creates`]) adds the trimmed name's profile and returns to
    /// the roster, Cancel returns without adding. Delete view: Yes
    /// removes the slot, either answer returns to the roster. Anything
    /// else leaves the screen as it was.
    pub fn step(&mut self, input: FrameInput) -> (r: SelectAction)
        requires
            old(self).wf(),
        ensures
            final(self).wf(),
            match old(self).view {
                SelectView::Roster => match input.clicked {
                    Some(SelectButton::Play(i)) if i < old(self).roster@.len() => {
                        &&& r matches SelectAction::Play(p) && spec_same_profile(p, old(self).roster@[i as int])
                        &&& final(self).view is Roster
                        &&& final(self).roster@ == old(self).roster@
                    },
                    Some(SelectButton::Delete(i)) if i < old(self).roster@.len() => {
                        &&& r is Stay
                        &&& final(self).view == (SelectView::DeleteConfirm { idx: i })
                        &&& final(self).roster@ == old(self).roster@
                    },
                    Some(SelectButton::CreateNew) if old(self).roster@.len() < MAX_CHARACTERS => {
                        &&& r is Stay
                        &&& final(self).view matches SelectView::Create(f) && f.name@.len() == 0
                            && f.gender == Gender::Female && f.class_idx == 0
                        &&& final(self).roster@ == old(self).roster@
                    },
                    Some(SelectButton::Quit) => {
                        &&& r is Quit
                        &&& final(self).view is Roster
                        &&& final(self).roster@ == old(self).roster@
                    },
                    _ => {
                        &&& r is Stay
                        &&& final(self).view is Roster
                        &&& final(self).roster@ == old(self).roster@
                    },
                },
                SelectView::Create(form) => {
                    let name = Self::spec_edited_name(form.name@, input);
                    let gender = spec_form_gender(form.gender, input.clicked);
                    &&& r is Stay
                    &&& if spec_creates(name, input) {
                        &&& final(self).view is Roster
                        &&& final(self).roster@.len() == if old(self).roster@.len() < MAX_CHARACTERS {
                            old(self).roster@.len() + 1
                        } else {
                            old(self).roster@.len()
                        }
                        &&& forall|i: int| 0 <= i < old(self).roster@.len() ==> #[trigger] final(self).roster@[i]
                            == old(self).roster@[i]
                        &&& old(self).roster@.len() < MAX_CHARACTERS ==> {
                            let p = final(self).roster@.last();
                            &&& p.name@ == spec_trim(name)
                            &&& p.gender == gender
                            &&& p.level == 1
                            &&& p.equipped_base_ids@.len() == 0
                        }
                    } else if input.clicked == Some(SelectButton::Cancel) {
                        &&& final(self).view is Roster
                        &&& final(self).roster@ == old(self).roster@
                    } else {
                        &&& final(self).view matches SelectView::Create(f) && f.name@ == name && f.gender
                            == gender && f.class_idx == spec_form_class(form.class_idx, input.clicked)
                        &&& final(self).roster@ == old(self).roster@
                    }
                },
                SelectView::DeleteConfirm { idx } => {
                    &&& r is Stay
                    &&& match input.clicked {
                        Some(SelectButton::DeleteYes) => {
                            &&& final(self).view is Roster
                            &&& idx < old(self).roster@.len() ==> final(self).roster@ == old(
                                self,
                            ).roster@.remove(idx as int)
                            &&& idx >= old(self).roster@.len() ==> final(self).roster@ == old(self).roster@
                        },
                        Some(SelectButton::DeleteNo) => {
                            &&& final(self).view is Roster
                            &&& final(self).roster@ == old(self).roster@
                        },
                        _ => {
                            &&& final(self).view == old(self).view
                            &&& final(self).roster@ == old(self).roster@
                        },
                    }
                },
            },
    {
        let mut view = SelectView::Roster;
        std::mem::swap(&mut view, &mut self.view);
        match view {
            SelectView::Roster => self.roster_frame(input.clicked),
            SelectView::Create(form) => self.create_frame(form, input),
            SelectView::DeleteConfirm { idx } => {
                match input.clicked {
                    Some(SelectButton::DeleteYes) => {
                        self.roster.remove(idx);
                    },
                    Some(SelectButton::DeleteNo) => {},
                    _ => {
                        self.view = SelectView::DeleteConfirm { idx };
                    },
                }
                SelectAction::Stay
            },
        }
    }

    fn roster_frame(&mut self, clicked: Option<SelectButton>) -> (r: SelectAction)
        requires
            old(self).view is Roster,
            old(self).roster@.len() <= MAX_CHARACTERS,
        ensures
            final(self).wf(),
            match clicked {
                Some(SelectButton::Play(i)) if i < old(self).roster@.len() => {
                    &&& r matches SelectAction::Play(p) && spec_same_profile(p, old(self).roster@[i as int])
                    &&& final(self).view is Roster
                    &&& final(self).roster@ == old(self).roster@
                },
                Some(SelectButton::Delete(i)) if i < old(self).roster@.len() => {
                    &&& r is Stay
                    &&& final(self).view == (SelectView::DeleteConfirm { idx: i })
                    &&& final(self).roster@ == old(self).roster@
                },
                Some(SelectButton::CreateNew) if old(self).roster@.len() < MAX_CHARACTERS => {
                    &&& r is Stay
                    &&& final(self).view matches SelectView::Create(f) && f.name@.len() == 0
                        && f.gender == Gender::Female && f.class_idx == 0
                    &&& final(self).roster@ == old(self).roster@
                },
                Some(SelectButton::Quit) => {
                    &&& r is Quit
                    &&& final(self).view is Roster
                    &&& final(self).roster@ == old(self).roster@
                },
                _ => {
                    &&& r is Stay
                    &&& final(self).view is Roster
                    &&& final(self).roster@ == old(self).roster@
                },
            },
    {
        match clicked {
            Some(SelectButton::Play(i)) => {
                if i < self.roster.len() {
                    let slots = self.roster.slots();
                    let p = copy_profile(&slots[i]);
                    return SelectAction::Play(p);
                }
                SelectAction::Stay
            },
            Some(SelectButton::Delete(i)) => {
                if i < self.roster.len() {
                    self.view = SelectView::DeleteConfirm { idx: i };
                }
                SelectAction::Stay
            },
            Some(SelectButton::CreateNew) => {
                if !self.roster.is_full() {
                    self.view = SelectView::Create(CreateForm::new());
                }
                SelectAction::Stay
            },
            Some(SelectButton::Quit) => SelectAction::Quit,
            _ => SelectAction::Stay,
        }
    }

    fn create_frame(&mut self, form: CreateForm, input: FrameInput) -> (r: SelectAction)
        requires
            old(self).view is Roster,
            old(self).roster@.len() <= MAX_CHARACTERS,
            form.class_idx < CLASS_COUNT,
        ensures
            final(self).wf(),
            ({
                let name = Self::spec_edited_name(form.name@, input);
                let gender = spec_form_gender(form.gender, input.clicked);
                &&& r is Stay
                &&& if spec_creates(name, input) {
                    &&& final(self).view is Roster
                    &&& final(self).roster@.len() == if old(self).roster@.len() < MAX_CHARACTERS {
                        old(self).roster@.len() + 1
                    } else {
                        old(self).roster@.len()
                    }
                    &&& forall|i: int| 0 <= i < old(self).roster@.len() ==> #[trigger] final(self).roster@[i]
                        == old(self).roster@[i]
                    &&& old(self).roster@.len() < MAX_CHARACTERS ==> {
                        let p = final(self).roster@.last();
                        &&& p.name@ == spec_trim(name)
                        &&& p.gender == gender
                        &&& p.level == 1
                        &&& p.equipped_base_ids@.len() == 0
                    }
                } else if input.clicked == Some(SelectButton::Cancel) {
                    &&& final(self).view is Roster
                    &&& final(self).roster@ == old(self).roster@
                } else {
                    &&& final(self).view matches SelectView::Create(f) && f.name@ == name && f.gender
                        == gender && f.class_idx == spec_form_class(form.class_idx, input.clicked)
                    &&& final(self).roster@ == old(self).roster@
                }
            }),
    {
        let mut form = form;
        type_chars(&mut form.name, &input.typed);
        backspace(&mut form.name, input.backspaces);
        match input.clicked {
            Some(SelectButton::Male) => {
                form.gender = Gender::Male;
            },
            Some(SelectButton::Female) => {
                form.gender = Gender::Female;
            },
            Some(SelectButton::ClassPrev) => {
                form.class_idx = (form.class_idx + CLASS_COUNT - 1) % CLASS_COUNT;
            },
            Some(SelectButton::ClassNext) => {
                form.class_idx = (form.class_idx + 1) % CLASS_COUNT;
            },
            _ => {},
        }
        let trimmed = trim_chars(&form.name);
        let can_confirm = trimmed.len() > 0;
        let confirm = match input.clicked {
            Some(SelectButton::Confirm) => true,
            _ => false,
        };
        let cancel = match input.clicked {
            Some(SelectButton::Cancel) => true,
            _ => false,
        };
        if can_confirm && (confirm || (!cancel && input.enter)) {
            let profile = CharacterProfile::new(string_from_chars(trimmed), form.gender);
            let _ = self.roster.add(profile);
            return SelectAction::Stay;
        }
        if cancel {
            return SelectAction::Stay;
        }
        self.view = SelectView::Create(form);
        SelectAction::Stay
    }
}

/// Append each typed character that is not a control character while
/// the name is shorter than [`NAME_MAX_CHARS`].
fn type_chars(name: &mut Vec<char>, typed: &Vec<char>)
    ensures
        final(name)@ == spec_type_chars(old(name)@, typed@),
{
    let ghost start = name@;
    let mut k: usize = 0;
    while k < typed.len()
        invariant
            k <= typed@.len(),
            name@ == spec_type_chars(start, typed@.take(k as int)),
        decreases typed@.len() - k,
    {
        let c = typed[k];
        proof {
            assert(typed@.take(k as int + 1).drop_last() =~= typed@.take(k as int));
        }
        if name.len() < NAME_MAX_CHARS && !is_control(c) {
            name.push(c);
        }
        k = k + 1;
    }
    proof {
        assert(typed@.take(typed@.len() as int) =~= typed@);
    }
}

/// Remove up to `n` characters from the end of the name.
fn backspace(name: &mut Vec<char>, n: usize)
    ensures
        final(name)@ == spec_backspace(old(name)@, n as nat),
{
    let ghost start = name@;
    let mut k: usize = 0;
    while k < n
        invariant
            k <= n,
            name@ == spec_backspace(start, k as nat),
        decreases n - k,
    {
        if name.len() > 0 {
            name.pop();
        }
        proof {
            if k + 1 < start.len() {
                assert(name@ =~= start.take(start.len() - (k + 1)));
            } else {
                assert(name@ =~= Seq::<char>::empty());
            }
        }
        k = k + 1;
    }
}

} // verus!
