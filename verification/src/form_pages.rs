//! The form demonstration page: a fixed row of input slots and the result of
//! a multiple-choice select, changed only by folding messages into them.

use crate::styles::{Palette, Size};
use vstd::prelude::*;
use vstd::string::StringExecFns;

verus! {

/// Number of input slots a page owns from construction on.
pub const INPUT_SLOTS: usize = 50;

/// State of the form page.
#[derive(Debug, PartialEq, Eq)]
pub struct FormPage {
    /// Current text of every input slot, by position.
    pub value: Vec<String>,
    /// Values chosen in the multiple-choice select, in option order.
    pub multiple_values: Vec<String>,
}

/// The transitions the page supports.
#[derive(Debug, PartialEq, Eq)]
pub enum Msg {
    /// The text input bound to a slot now holds this text.
    Input(String, usize),
    /// The single-choice select bound to a slot now holds this value.
    Select(String, usize),
    /// The multiple-choice select now has exactly these values chosen.
    MultipleSelect(Vec<String>),
}

/// Mathematical content of a [`FormPage`].
pub struct FormState {
    pub value: Seq<Seq<char>>,
    pub multiple_values: Seq<Seq<char>>,
}

/// Mathematical content of a [`Msg`].
pub enum FormMsg {
    Input(Seq<char>, int),
    Select(Seq<char>, int),
    MultipleSelect(Seq<Seq<char>>),
}

impl View for Msg {
    type V = FormMsg;

    open spec fn view(&self) -> FormMsg {
        match *self {
            Msg::Input(value, slot) => FormMsg::Input(value@, slot as int),
            Msg::Select(value, slot) => FormMsg::Select(value@, slot as int),
            Msg::MultipleSelect(values) => FormMsg::MultipleSelect(values.deep_view()),
        }
    }
}

/// The state a page starts in: every slot blank, nothing chosen.
pub open spec fn initial_state() -> FormState {
    FormState {
        value: Seq::new(INPUT_SLOTS as nat, |i: int| Seq::<char>::empty()),
        multiple_values: Seq::empty(),
    }
}

/// `slots` with the slot at `slot` replaced by `text`; unchanged when there
/// is no such slot.
pub open spec fn write_slot(slots: Seq<Seq<char>>, slot: int, text: Seq<char>) -> Seq<Seq<char>> {
    if 0 <= slot < slots.len() {
        slots.update(slot, text)
    } else {
        slots
    }
}

/// The transition function: the state that follows `state` once `msg` is
/// applied.
pub open spec fn fold(state: FormState, msg: FormMsg) -> FormState {
    match msg {
        FormMsg::Input(text, slot) => FormState {
            value: write_slot(state.value, slot, text),
            ..state
        },
        FormMsg::Select(text, slot) => FormState {
            value: write_slot(state.value, slot, text),
            ..state
        },
        FormMsg::MultipleSelect(values) => FormState { multiple_values: values, ..state },
    }
}

/// The state reached from `state` by applying `msgs` from first to last.
pub open spec fn fold_all(state: FormState, msgs: Seq<FormMsg>) -> FormState
    decreases msgs.len(),
{
    if msgs.len() == 0 {
        state
    } else {
        fold(fold_all(state, msgs.drop_last()), msgs.last())
    }
}

impl FormPage {
    /// Mathematical content of the page.
    pub open spec fn state(&self) -> FormState {
        FormState {
            value: self.value.deep_view(),
            multiple_values: self.multiple_values.deep_view(),
        }
    }

    /// A page holds exactly [`INPUT_SLOTS`] slots.
    pub open spec fn wf(&self) -> bool {
        self.value.len() == INPUT_SLOTS
    }

    /// A fresh page: every slot blank and no value chosen. The page takes no
    /// configuration.
    pub fn create(props: ()) -> (page: FormPage)
        ensures
            page.wf(),
            page.state() == initial_state(),
    {
        let mut value: Vec<String> = Vec::new();
        let mut filled: usize = 0;
        while filled < INPUT_SLOTS
            invariant
                filled <= INPUT_SLOTS,
                value.len() == filled,
                forall|i: int| 0 <= i < filled ==> (#[trigger] value[i])@ == Seq::<char>::empty(),
            decreases INPUT_SLOTS - filled,
        {
            value.push(String::new());
            filled = filled + 1;
        }
        let page = FormPage { value, multiple_values: Vec::new() };
        assert(page.state().value =~= initial_state().value);
        assert(page.state().multiple_values =~= initial_state().multiple_values);
        page
    }

    /// Folds `msg` into the page and asks for a re-render.
    ///
    /// A message that names a slot writes that slot and nothing else; one
    /// that names a slot the page does not have changes nothing. Every
    /// transition asks for a re-render.
    pub fn update(&mut self, msg: Msg) -> (rerender: bool)
        ensures
            final(self).state() == fold(old(self).state(), msg@),
            old(self).wf() ==> final(self).wf(),
            rerender,
    {
        match msg {
            Msg::Input(text, slot) => {
                if slot < self.value.len() {
                    self.value.set(slot, text);
                }
            },
            Msg::Select(text, slot) => {
                if slot < self.value.len() {
                    self.value.set(slot, text);
                }
            },
            Msg::MultipleSelect(values) => {
                self.multiple_values = values;
            },
        }
        assert(self.state().value =~= fold(old(self).state(), msg@).value);
        assert(self.state().multiple_values =~= fold(old(self).state(), msg@).multiple_values);
        true
    }

    /// The page takes no configuration, so a reconfiguration never changes
    /// it and never asks for a re-render.
    pub fn change(&mut self, props: ()) -> (rerender: bool)
        ensures
            *final(self) == *old(self),
            !rerender,
    {
        false
    }
}

/// One option of a select control, as the platform reports it with a change.
#[derive(Debug, PartialEq, Eq)]
pub struct SelectOption {
    pub value: String,
    pub selected: bool,
}

/// A select control at the moment it reports a change.
#[derive(Debug, PartialEq, Eq)]
pub struct SelectElement {
    /// The control's own current value.
    pub value: String,
    /// Every option of the control, in list order.
    pub options: Vec<SelectOption>,
}

/// The shapes a change event can take.
#[derive(Debug, PartialEq, Eq)]
pub enum ChangeData {
    /// A plain control reports its new text.
    Value(String),
    /// A select control reports itself.
    Select(SelectElement),
    /// A file control reports a new choice of files.
    Files,
}

/// The values of the options of `options` that are selected, in list order.
pub open spec fn chosen(options: Seq<SelectOption>) -> Seq<Seq<char>> {
    options.filter(|o: SelectOption| o.selected).map_values(|o: SelectOption| o.value@)
}

/// Appending an option to a list appends its value to the chosen values
/// when it is selected, and leaves them as they are when it is not.
pub proof fn lemma_chosen_push(options: Seq<SelectOption>, option: SelectOption)
    ensures
        chosen(options.push(option)) == if option.selected {
            chosen(options).push(option.value@)
        } else {
            chosen(options)
        },
{
    let selected = |o: SelectOption| o.selected;
    let value = |o: SelectOption| o.value@;
    options.lemma_filter_push(option, selected);
    if option.selected {
        options.filter(selected).lemma_push_map_commute(value, option);
    }
}

/// Collects the values of the selected options, in list order.
pub fn selected_values(options: &Vec<SelectOption>) -> (values: Vec<String>)
    ensures
        values.deep_view() == chosen(options@),
{
    let mut values: Vec<String> = Vec::new();
    let mut seen: usize = 0;
    assert(options@.take(0) =~= Seq::<SelectOption>::empty());
    assert(values.deep_view() =~= chosen(options@.take(0)));
    while seen < options.len()
        invariant
            seen <= options.len(),
            values.deep_view() == chosen(options@.take(seen as int)),
        decreases options.len() - seen,
    {
        let ghost before = values.deep_view();
        if options[seen].selected {
            let value = options[seen].value.clone();
            values.push(value);
            assert(values.deep_view() =~= before.push(options@[seen as int].value@));
        }
        proof {
            options@.lemma_take_succ_push(seen as int);
            lemma_chosen_push(options@.take(seen as int), options@[seen as int]);
        }
        seen = seen + 1;
    }
    assert(options@.take(options.len() as int) =~= options@);
    values
}

/// Message for a text input bound to `slot` that now holds `text`.
pub fn input_message(text: String, slot: usize) -> (msg: Msg)
    ensures
        msg@ == FormMsg::Input(text@, slot as int),
{
    Msg::Input(text, slot)
}

/// Message for a change reported to the single-choice select bound to
/// `slot`: the control's value when a select reports it, and no message for
/// any other shape of event.
pub fn select_message(event: ChangeData, slot: usize) -> (msg: Option<Msg>)
    ensures
        match event {
            ChangeData::Select(element) => msg matches Some(m) && m@ == FormMsg::Select(
                element.value@,
                slot as int,
            ),
            _ => msg is None,
        },
{
    match event {
        ChangeData::Select(element) => Some(Msg::Select(element.value, slot)),
        _ => None,
    }
}

/// Message for a change reported to the multiple-choice select: the values
/// of its selected options in list order when a select reports it, and no
/// message for any other shape of event.
pub fn multiple_select_message(event: ChangeData) -> (msg: Option<Msg>)
    ensures
        match event {
            ChangeData::Select(element) => msg matches Some(m) && m@ == FormMsg::MultipleSelect(
                chosen(element.options@),
            ),
            _ => msg is None,
        },
{
    match event {
        ChangeData::Select(element) => Some(Msg::MultipleSelect(selected_values(&element.options))),
        _ => None,
    }
}

/// Folding input-changed messages, however many, leaves every slot that
/// none of them names exactly as it was; the number of slots and the chosen
/// values stay as they were too.
pub proof fn lemma_inputs_leave_other_slots(state: FormState, msgs: Seq<FormMsg>, slot: int)
    requires
        forall|j: int| 0 <= j < msgs.len() ==> #[trigger] msgs[j] is Input,
        forall|j: int| 0 <= j < msgs.len() ==> (#[trigger] msgs[j])->Input_1 != slot,
    ensures
        fold_all(state, msgs).value.len() == state.value.len(),
        fold_all(state, msgs).multiple_values == state.multiple_values,
        0 <= slot < state.value.len() ==> fold_all(state, msgs).value[slot] == state.value[slot],
    decreases msgs.len(),
{
    if msgs.len() > 0 {
        let earlier = msgs.drop_last();
        assert forall|j: int| 0 <= j < earlier.len() implies #[trigger] earlier[j] is Input && earlier[j]->Input_1 != slot by {
            assert(earlier[j] == msgs[j]);
        }
        lemma_inputs_leave_other_slots(state, earlier, slot);
        assert(msgs.last() == msgs[msgs.len() - 1]);
    }
}

/// An input-changed message, folded in after any earlier messages, writes
/// its text to the slot it names and to no other, and leaves the chosen
/// values alone.
pub proof fn lemma_input_writes_named_slot(
    state: FormState,
    msgs: Seq<FormMsg>,
    text: Seq<char>,
    slot: int,
)
    ensures
        fold_all(state, msgs.push(FormMsg::Input(text, slot))).value == write_slot(
            fold_all(state, msgs).value,
            slot,
            text,
        ),
        fold_all(state, msgs.push(FormMsg::Input(text, slot))).multiple_values == fold_all(
            state,
            msgs,
        ).multiple_values,
{
    let extended = msgs.push(FormMsg::Input(text, slot));
    assert(extended.drop_last() =~= msgs);
    assert(extended.last() == FormMsg::Input(text, slot));
}

/// Number of text inputs the page shows.
pub const INPUT_FIELDS: usize = 3;

/// The slot that the single-choice select writes.
pub const SELECT_SLOT: usize = 3;

/// One text input as the page shows it.
#[derive(Debug, PartialEq, Eq)]
pub struct InputField {
    pub label: String,
    /// The text the input holds.
    pub value: String,
    pub input_style: Palette,
    pub input_size: Size,
    pub id: String,
    pub placeholder: String,
    pub underline: bool,
    /// The slot that a change of this input writes.
    pub slot: usize,
    /// The line under the input that repeats its text.
    pub caption: String,
}

/// One entry of a select control's option list.
#[derive(Debug, PartialEq, Eq)]
pub struct SelectChoice {
    pub value: String,
    pub label: String,
    pub disabled: bool,
}

/// One select control as the page shows it.
#[derive(Debug, PartialEq, Eq)]
pub struct SelectField {
    pub select_size: Size,
    /// Whether several options can be chosen at once.
    pub multiple: bool,
    pub choices: Vec<SelectChoice>,
    /// The slot that a change of a single-choice control writes; a
    /// multiple-choice control replaces the page's chosen values instead.
    pub slot: Option<usize>,
    /// The line under the control that repeats what is chosen.
    pub caption: String,
}

/// Everything the page shows.
#[derive(Debug, PartialEq, Eq)]
pub struct FormView {
    pub title: String,
    pub subtitle: String,
    pub inputs: Vec<InputField>,
    pub selects: Vec<SelectField>,
}

/// The text that `{:#?}` formatting gives for a list of strings.
pub uninterp spec fn pretty_debug_list(values: Seq<Seq<char>>) -> Seq<char>;

/// Formats `values` with `std::fmt`'s `{:#?}`, the pretty form of `Debug`
/// for `Vec<String>`. Trusted: the text that comes back depends on the
/// strings alone, so it is given the name [`pretty_debug_list`] and nothing
/// else is claimed of it.
#[verifier::external_body]
fn debug_pretty(values: &Vec<String>) -> (text: String)
    ensures
        text@ == pretty_debug_list(values.deep_view()),
{
    format!("{:#?}", values)
}

/// The caption that repeats `shown`.
pub open spec fn caption_text(shown: Seq<char>) -> Seq<char> {
    "Value: "@ + shown
}

/// Builds the caption that repeats `shown`.
pub fn caption(shown: &str) -> (text: String)
    ensures
        text@ == caption_text(shown@),
{
    String::from_str("Value: ").concat(shown)
}

/// Label of the text input at `slot`.
pub open spec fn input_label(slot: int) -> Seq<char> {
    if slot == 0 {
        "standard input"@
    } else if slot == 1 {
        "underline input"@
    } else {
        "Success input type"@
    }
}

/// Palette of the text input at `slot`.
pub open spec fn input_palette(slot: int) -> Palette {
    if slot == 2 {
        Palette::Success
    } else {
        Palette::Standard
    }
}

/// `field` is the text input that a page in `state` shows for `slot`.
pub open spec fn shows_input(field: InputField, state: FormState, slot: int) -> bool {
    &&& field.label@ == input_label(slot)
    &&& field.value@ == state.value[slot]
    &&& field.input_style == input_palette(slot)
    &&& field.input_size == Size::Medium
    &&& field.id@ == "form-input-test"@
    &&& field.placeholder@ == "test"@
    &&& field.underline == (slot == 1)
    &&& field.slot == slot
    &&& field.caption@ == caption_text(state.value[slot])
}

/// `fields` are the text inputs that a page in `state` shows, in order.
pub open spec fn shows_inputs(fields: Seq<InputField>, state: FormState) -> bool {
    &&& fields.len() == INPUT_FIELDS
    &&& forall|slot: int| 0 <= slot < INPUT_FIELDS ==> shows_input(#[trigger] fields[slot], state, slot)
}

/// Values of the library options, in list order.
pub open spec fn choice_values() -> Seq<Seq<char>> {
    seq![""@, "yew"@, "yew_styles"@, "yew_prism"@]
}

/// Labels of the library options, in list order.
pub open spec fn choice_labels(multiple: bool) -> Seq<Seq<char>> {
    seq![
        if multiple {
            "Select multiple library"@
        } else {
            "Select library"@
        },
        "Yew"@,
        "Yew Styles"@,
        "Yew prism"@,
    ]
}

/// `choices` is the option list of a library select: a disabled heading
/// followed by the libraries.
pub open spec fn shows_choices(choices: Seq<SelectChoice>, multiple: bool) -> bool {
    &&& choices.len() == 4
    &&& forall|i: int|
        0 <= i < 4 ==> {
            &&& (#[trigger] choices[i]).value@ == choice_values()[i]
            &&& choices[i].label@ == choice_labels(multiple)[i]
            &&& choices[i].disabled == (i == 0)
        }
}

/// `fields` are the select controls that a page in `state` shows: the
/// single-choice control bound to [`SELECT_SLOT`], then the multiple-choice
/// control.
pub open spec fn shows_selects(fields: Seq<SelectField>, state: FormState) -> bool {
    &&& fields.len() == 2
    &&& fields[0].select_size == Size::Medium
    &&& !fields[0].multiple
    &&& shows_choices(fields[0].choices@, false)
    &&& fields[0].slot == Some(SELECT_SLOT)
    &&& fields[0].caption@ == caption_text(state.value[SELECT_SLOT as int])
    &&& fields[1].select_size == Size::Medium
    &&& fields[1].multiple
    &&& shows_choices(fields[1].choices@, true)
    &&& fields[1].slot is None
    &&& fields[1].caption@ == caption_text(pretty_debug_list(state.multiple_values))
}

fn input_field(form_page: &FormPage, slot: usize, label: &str, palette: Palette) -> (field:
    InputField)
    requires
        slot < form_page.value.len(),
        label@ == input_label(slot as int),
        palette == input_palette(slot as int),
    ensures
        shows_input(field, form_page.state(), slot as int),
{
    InputField {
        label: String::from_str(label),
        value: form_page.value[slot].clone(),
        input_style: palette,
        input_size: Size::Medium,
        id: String::from_str("form-input-test"),
        placeholder: String::from_str("test"),
        underline: slot == 1,
        slot,
        caption: caption(form_page.value[slot].as_str()),
    }
}

fn choice(value: &str, label: &str, disabled: bool) -> (entry: SelectChoice)
    ensures
        entry.value@ == value@,
        entry.label@ == label@,
        entry.disabled == disabled,
{
    SelectChoice { value: String::from_str(value), label: String::from_str(label), disabled }
}

fn library_choices(multiple: bool) -> (choices: Vec<SelectChoice>)
    ensures
        shows_choices(choices@, multiple),
{
    let mut choices: Vec<SelectChoice> = Vec::new();
    if multiple {
        choices.push(choice("", "Select multiple library", true));
    } else {
        choices.push(choice("", "Select library", true));
    }
    choices.push(choice("yew", "Yew", false));
    choices.push(choice("yew_styles", "Yew Styles", false));
    choices.push(choice("yew_prism", "Yew prism", false));
    choices
}

/// The three text inputs of the page, each showing its slot.
pub fn get_form_inputs(form_page: &FormPage) -> (fields: Vec<InputField>)
    requires
        form_page.wf(),
    ensures
        shows_inputs(fields@, form_page.state()),
{
    let mut fields: Vec<InputField> = Vec::new();
    fields.push(input_field(form_page, 0, "standard input", Palette::Standard));
    fields.push(input_field(form_page, 1, "underline input", Palette::Standard));
    fields.push(input_field(form_page, 2, "Success input type", Palette::Success));
    fields
}

/// The two select controls of the page.
pub fn get_select_form(form_page: &FormPage) -> (fields: Vec<SelectField>)
    requires
        form_page.wf(),
    ensures
        shows_selects(fields@, form_page.state()),
{
    let single = SelectField {
        select_size: Size::Medium,
        multiple: false,
        choices: library_choices(false),
        slot: Some(SELECT_SLOT),
        caption: caption(form_page.value[SELECT_SLOT].as_str()),
    };
    let listing = debug_pretty(&form_page.multiple_values);
    let multiple = SelectField {
        select_size: Size::Medium,
        multiple: true,
        choices: library_choices(true),
        slot: None,
        caption: caption(listing.as_str()),
    };
    let mut fields: Vec<SelectField> = Vec::new();
    fields.push(single);
    fields.push(multiple);
    fields
}

impl FormPage {
    /// Derives what the page shows from its state, which it leaves as it is.
    pub fn view(&self) -> (shown: FormView)
        requires
            self.wf(),
        ensures
            shown.title@ == "Form Component"@,
            shown.subtitle@ == "Form input types"@,
            shows_inputs(shown.inputs@, self.state()),
            shows_selects(shown.selects@, self.state()),
    {
        FormView {
            title: String::from_str("Form Component"),
            subtitle: String::from_str("Form input types"),
            inputs: get_form_inputs(self),
            selects: get_select_form(self),
        }
    }
}

} // verus!
