use vstd::prelude::*;
use vstd::std_specs::cmp::PartialEqSpec;
use crate::key::{Key, KeyCode};
use crate::list_selection::{has_match, is_first_match, ListSelection, ListSelectionView};
use crate::status::StatusKind;
use crate::text::{description_or_empty, text_view};
use crate::user_input::{UserInput, UserInputView};

verus! {

/// The members of a form, in the order in which the focus goes round them.
#[derive(Debug, Clone, Copy, PartialEq, Eq, Structural)]
pub enum InputField {
    Title,
    Description,
    Status,
}

/// The member that gets the focus after `field`: the following one, or the preceding
/// one where `reverse` is set. Behind the last member comes the first, and before the
/// first the last.
pub open spec fn next_field(field: InputField, reverse: bool) -> InputField {
    if reverse {
        match field {
            InputField::Title => InputField::Status,
            InputField::Description => InputField::Title,
            InputField::Status => InputField::Description,
        }
    } else {
        match field {
            InputField::Title => InputField::Description,
            InputField::Description => InputField::Status,
            InputField::Status => InputField::Title,
        }
    }
}

impl InputField {
    /// The member that gets the focus after this one.
    pub fn next(self, reverse: bool) -> (r: InputField)
        ensures
            r == next_field(self, reverse),
    {
        if reverse {
            match self {
                InputField::Title => InputField::Status,
                InputField::Description => InputField::Title,
                InputField::Status => InputField::Description,
            }
        } else {
            match self {
                InputField::Title => InputField::Description,
                InputField::Description => InputField::Status,
                InputField::Status => InputField::Title,
            }
        }
    }
}

/// A place at which `items` holds `item`.
pub open spec fn place_of<T>(items: Seq<T>, item: T) -> nat {
    choose|i: nat| i < items.len() && items[i as int] == item
}

/// What a form holds at one moment: the two texts and the chosen state.
pub struct InputValues<T> {
    pub title: Seq<char>,
    pub description: Seq<char>,
    pub status: T,
}

/// The values of a form, borrowed from it.
pub struct Inputs<'a, T> {
    pub title: &'a str,
    pub description: &'a str,
    pub status: &'a T,
}

impl<'a, T> View for Inputs<'a, T> {
    type V = InputValues<T>;

    open spec fn view(&self) -> InputValues<T> {
        InputValues { title: self.title@, description: self.description@, status: *self.status }
    }
}

/// What a form is: its three members and the one that has the focus.
pub struct MultiInputView<T> {
    pub title: UserInputView,
    pub description: UserInputView,
    pub status: ListSelectionView<T>,
    pub active_field: InputField,
}

impl<T: StatusKind> MultiInputView<T> {
    /// The members are sound, the list offers every state, and the member that has the
    /// focus is active while the other two are not.
    pub open spec fn wf(self) -> bool {
        &&& self.title.wf()
        &&& self.description.wf()
        &&& self.status.wf()
        &&& self.status.items == T::every()
        &&& self.title.active == (self.active_field == InputField::Title)
        &&& self.description.active == (self.active_field == InputField::Description)
        &&& self.status.active == (self.active_field == InputField::Status)
    }

    /// The form as it is made: no text, the first state selected, the focus on the
    /// title.
    pub open spec fn fresh() -> Self {
        MultiInputView {
            title: UserInputView {
                title: "Task Title"@,
                text: Seq::empty(),
                cursor: 0,
                active: true,
            },
            description: UserInputView {
                title: "Task Description"@,
                text: Seq::empty(),
                cursor: 0,
                active: false,
            },
            status: ListSelectionView {
                items: T::every(),
                selected: Some(0nat),
                active: false,
                title: "Status"@,
            },
            active_field: InputField::Title,
        }
    }

    /// The form with the focus on `field` and on no other member.
    pub open spec fn focused(self, field: InputField) -> Self {
        MultiInputView {
            title: UserInputView { active: field == InputField::Title, ..self.title },
            description: UserInputView {
                active: field == InputField::Description,
                ..self.description
            },
            status: ListSelectionView { active: field == InputField::Status, ..self.status },
            active_field: field,
        }
    }

    /// The form after the focus went on by one member.
    pub open spec fn switched(self, reverse: bool) -> Self {
        self.focused(next_field(self.active_field, reverse))
    }

    /// The values that the form holds.
    pub open spec fn inputs(self) -> InputValues<T> {
        InputValues {
            title: self.title.text,
            description: self.description.text,
            status: self.status.items[self.status.selected.unwrap() as int],
        }
    }

    /// The form filled with the values of an entity: the title, the description, and
    /// the state. The carets stand behind the texts. Without a description the text of
    /// that member is empty.
    pub open spec fn filled(
        self,
        title: Seq<char>,
        description: Option<Seq<char>>,
        status: T,
    ) -> Self {
        MultiInputView {
            title: UserInputView { text: title, cursor: title.len(), ..self.title },
            description: match description {
                Some(text) => UserInputView { text, cursor: text.len(), ..self.description },
                None => UserInputView { text: Seq::empty(), cursor: 0, ..self.description },
            },
            status: ListSelectionView {
                selected: Some(place_of(self.status.items, status)),
                ..self.status
            },
            ..self
        }
    }

    /// The form with both texts empty, the first state selected and the focus on the
    /// title.
    pub open spec fn cleared(self) -> Self {
        MultiInputView {
            title: UserInputView { text: Seq::empty(), cursor: 0, active: true, ..self.title },
            description: UserInputView {
                text: Seq::empty(),
                cursor: 0,
                active: false,
                ..self.description
            },
            status: ListSelectionView { selected: Some(0nat), active: false, ..self.status },
            active_field: InputField::Title,
        }
    }

    /// The form after one key press: tab moves the focus on, backward where shift is
    /// held, and every other key goes to the member that has the focus.
    pub open spec fn after_key(self, key: Key) -> Self {
        if key.code == KeyCode::Tab {
            self.switched(key.shift)
        } else {
            match self.active_field {
                InputField::Title => MultiInputView {
                    title: UserInput::after_key(self.title, key),
                    ..self
                },
                InputField::Description => MultiInputView {
                    description: UserInput::after_key(self.description, key),
                    ..self
                },
                InputField::Status => MultiInputView {
                    status: ListSelectionView {
                        selected: ListSelection::<T>::selection_after_key(
                            self.status.selected,
                            self.status.items.len(),
                            key,
                        ),
                        ..self.status
                    },
                    ..self
                },
            }
        }
    }
}

/// A form of a title, a description and a choice among the states of an entity.
pub struct MultiInput<T> {
    title: UserInput,
    description: UserInput,
    status: ListSelection<T>,
    active_field: InputField,
}

impl<T> View for MultiInput<T> {
    type V = MultiInputView<T>;

    closed spec fn view(&self) -> MultiInputView<T> {
        MultiInputView {
            title: self.title@,
            description: self.description@,
            status: self.status@,
            active_field: self.active_field,
        }
    }
}

impl<T: StatusKind> MultiInput<T> {
    /// Whether the form is sound.
    pub open spec fn wf(&self) -> bool {
        self@.wf()
    }

    /// An empty form: no text, the first state selected, the focus on the title.
    pub fn new() -> (r: Self)
        ensures
            r.wf(),
            r@ == MultiInputView::<T>::fresh(),
    {
        proof {
            T::every_is_complete();
        }
        Self {
            title: UserInput::new(String::from_str("Task Title"), true),
            description: UserInput::new(String::from_str("Task Description"), false),
            active_field: InputField::Title,
            status: ListSelection::new(T::all(), "Status"),
        }
    }

    /// Moves the focus on by one member: the member that had it becomes inactive and
    /// the one that gets it becomes active.
    pub fn switch_field(&mut self, reverse: bool)
        requires
            old(self).wf(),
        ensures
            final(self).wf(),
            final(self)@ == old(self)@.switched(reverse),
    {
        match self.active_field {
            InputField::Title => self.title.switch_active(),
            InputField::Description => self.description.switch_active(),
            InputField::Status => self.status.switch_active(),
        }
        self.active_field = self.active_field.next(reverse);
        match self.active_field {
            InputField::Title => self.title.switch_active(),
            InputField::Description => self.description.switch_active(),
            InputField::Status => self.status.switch_active(),
        }
    }

    /// The values that the form holds.
    pub fn get_inputs(&self) -> (r: Inputs<'_, T>)
        requires
            self.wf(),
        ensures
            r@ == self@.inputs(),
    {
        proof {
            T::every_is_complete();
        }
        Inputs {
            title: self.title.get_input(),
            description: self.description.get_input(),
            status: self.status.selected().unwrap(),
        }
    }

    /// Empties both texts, selects the first state and puts the focus on the title.
    pub fn reset(&mut self)
        requires
            old(self).wf(),
        ensures
            final(self).wf(),
            final(self)@ == old(self)@.cleared(),
    {
        proof {
            T::every_is_complete();
        }
        self.title.reset();
        self.description.reset();
        self.status.reset();
        match self.active_field {
            InputField::Title => {},
            InputField::Description => {
                self.description.switch_active();
                self.title.switch_active();
            },
            InputField::Status => {
                self.status.switch_active();
                self.title.switch_active();
            },
        }
        self.active_field = InputField::Title;
    }

    /// Fills the form with the values of an entity: the title, the description, and
    /// the state. The carets go behind the texts. Without a description the text of
    /// that member is emptied, whatever it held. The values that the form then holds
    /// are the ones given, with an empty description where none is given.
    pub fn set_inputs(&mut self, title: String, description: Option<String>, status: T)
        requires
            old(self).wf(),
        ensures
            final(self).wf(),
            final(self)@ == old(self)@.filled(title@, text_view(description), status),
            final(self)@.inputs() == (InputValues {
                title: title@,
                description: description_or_empty(text_view(description)),
                status,
            }),
    {
        proof {
            set_inputs_round_trip(self@, title@, text_view(description), status);
            T::eq_is_identity();
        }
        let ghost items = self.status@.items;
        let ghost place = place_of(items, status);
        assert(items[place as int].eq_spec(&status));
        assert(has_match(items, status));
        self.title.set_input(title);
        match description {
            Some(description) => self.description.set_input(description),
            None => self.description.reset(),
        }
        let found = self.status.set_selected(status);
        assert(found);
        assert(is_first_match(items, status, self.status@.selected.unwrap() as int));
    }

    /// Applies one key press to the form.
    pub fn handle_key_events(&mut self, key: Key)
        requires
            old(self).wf(),
        ensures
            final(self).wf(),
            final(self)@ == old(self)@.after_key(key),
    {
        match key.code {
            KeyCode::Tab => {
                self.switch_field(key.shift);
            },
            _ => match self.active_field {
                InputField::Title => self.title.handle_key_events(key),
                InputField::Description => self.description.handle_key_events(key),
                InputField::Status => self.status.handle_key_events(key),
            },
        }
    }

    /// The member that holds the title.
    pub fn title_field(&self) -> (r: &UserInput)
        ensures
            r@ == self@.title,
    {
        &self.title
    }

    /// The member that holds the description.
    pub fn description_field(&self) -> (r: &UserInput)
        ensures
            r@ == self@.description,
    {
        &self.description
    }

    /// The member that holds the choice of state.
    pub fn status_list(&self) -> (r: &ListSelection<T>)
        ensures
            r@ == self@.status,
    {
        &self.status
    }

    /// The member that has the focus.
    pub fn active_field(&self) -> (r: InputField)
        ensures
            r == self@.active_field,
    {
        self.active_field
    }
}

/// In a sound form exactly one member is active: the one that has the focus.
pub proof fn exactly_one_member_is_active<T: StatusKind>(form: MultiInputView<T>)
    requires
        form.wf(),
    ensures
        form.title.active || form.description.active || form.status.active,
        !(form.title.active && form.description.active),
        !(form.title.active && form.status.active),
        !(form.description.active && form.status.active),
{
}

/// Moving the focus forward and then backward, or backward and then forward, leaves a
/// sound form as it was.
pub proof fn switch_field_there_and_back<T: StatusKind>(form: MultiInputView<T>)
    requires
        form.wf(),
    ensures
        form.switched(false).switched(true) == form,
        form.switched(true).switched(false) == form,
        form.switched(false).wf(),
        form.switched(true).wf(),
{
}

/// A sound form that was filled with a title, a description and a state holds these
/// values, and is sound, whatever it held before. Where no description is given, it
/// holds an empty one.
pub proof fn set_inputs_round_trip<T: StatusKind>(
    form: MultiInputView<T>,
    title: Seq<char>,
    description: Option<Seq<char>>,
    status: T,
)
    requires
        form.wf(),
    ensures
        form.filled(title, description, status).wf(),
        form.filled(title, description, status).inputs() == (InputValues {
            title,
            description: description_or_empty(description),
            status,
        }),
        place_of(form.status.items, status) < form.status.items.len(),
        form.status.items[place_of(form.status.items, status) as int] == status,
        forall|i: int|
            0 <= i < form.status.items.len() && form.status.items[i] == status ==> i == place_of(
                form.status.items,
                status,
            ),
{
    T::every_is_complete();
    let items = form.status.items;
    assert(items.contains(status));
    let at = choose|i: int| 0 <= i < items.len() && items[i] == status;
    assert((at as nat) < items.len() && items[at as nat as int] == status);
}

/// Whatever key is pressed, a sound form stays sound: exactly one member is active
/// afterwards, and it is the one that has the focus.
pub proof fn after_key_keeps_form_sound<T: StatusKind>(form: MultiInputView<T>, key: Key)
    requires
        form.wf(),
    ensures
        form.after_key(key).wf(),
{
    T::every_is_complete();
}

/// Three steps of the focus in one direction lead round the form.
pub proof fn switch_field_cycles<T: StatusKind>(form: MultiInputView<T>, reverse: bool)
    requires
        form.wf(),
    ensures
        form.switched(reverse).switched(reverse).switched(reverse) == form,
{
}

} // verus!
