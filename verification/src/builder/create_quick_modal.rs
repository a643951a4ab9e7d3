//! A modal of text inputs that is asked in one step: shown in answer to an
//! interaction, and read when the user hands it in.

use vstd::prelude::*;
use crate::builder::create_components::{CreateActionRow, CreateInputText};
use crate::json::component::rows_json;
use crate::json::decimal::{decimal, decimal_text};
use crate::json::{items_view, Json, ObjectWriter, Value};
use crate::model::application::component::InputTextStyle;
use crate::model::application::interaction::modal::ModalSubmitInteraction;
use crate::model::id::InteractionId;

verus! {

/// The number that stands for a modal among the answers to an interaction.
pub const MODAL_ANSWER: u64 = 9;

/// A builder of a modal of text inputs.
#[derive(Clone, Debug, PartialEq, Eq)]
pub struct CreateQuickModal {
    pub title: String,
    /// For how many milliseconds the user's answer is waited for; without limit
    /// where none is set.
    pub timeout: Option<u64>,
    /// The text inputs, in the order in which they are shown.
    pub input_texts: Vec<CreateInputText>,
}

/// What the user answered to a modal.
#[derive(Debug, PartialEq, Eq)]
pub struct QuickModalResponse {
    /// The interaction by which the modal was handed in.
    pub interaction: ModalSubmitInteraction,
    /// What the user typed, in the order of the text inputs.
    pub inputs: Vec<String>,
}

impl CreateQuickModal {
    /// The modal with the given title, without text inputs and without time limit.
    pub fn new(title: &str) -> (r: Self)
        ensures
            r.title@ == title@,
            r.timeout is None,
            r.input_texts@.len() == 0,
    {
        CreateQuickModal { title: title.to_owned(), timeout: None, input_texts: Vec::new() }
    }

    /// Sets for how many milliseconds the user's answer is waited for.
    pub fn timeout(self, timeout: u64) -> (r: Self)
        ensures
            r == (CreateQuickModal { timeout: Some(timeout), ..self }),
    {
        CreateQuickModal { timeout: Some(timeout), ..self }
    }

    /// Adds a text input behind those that are there. Its identifier does not
    /// matter: when the modal is shown, each input gets its place as identifier.
    pub fn field(self, input_text: CreateInputText) -> (r: Self)
        ensures
            r.input_texts@ == self.input_texts@.push(input_text),
            r.title == self.title,
            r.timeout == self.timeout,
    {
        let mut input_texts = self.input_texts;
        input_texts.push(input_text);
        CreateQuickModal { input_texts, title: self.title, timeout: self.timeout }
    }

    /// Adds a text input of one line with the given label.
    pub fn short_field(self, label: &str) -> (r: Self)
        ensures
            r.input_texts@.len() == self.input_texts@.len() + 1,
            r.input_texts@.drop_last() == self.input_texts@,
            r.input_texts@.last().style == InputTextStyle::Short,
            r.input_texts@.last().label@ == label@,
            r.title == self.title,
            r.timeout == self.timeout,
    {
        let r = self.field(CreateInputText::new(InputTextStyle::Short, label, ""));
        assert(r.input_texts@.drop_last() =~= self.input_texts@);
        r
    }

    /// Adds a text input of several lines with the given label.
    pub fn paragraph_field(self, label: &str) -> (r: Self)
        ensures
            r.input_texts@.len() == self.input_texts@.len() + 1,
            r.input_texts@.drop_last() == self.input_texts@,
            r.input_texts@.last().style == InputTextStyle::Paragraph,
            r.input_texts@.last().label@ == label@,
            r.title == self.title,
            r.timeout == self.timeout,
    {
        let r = self.field(CreateInputText::new(InputTextStyle::Paragraph, label, ""));
        assert(r.input_texts@.drop_last() =~= self.input_texts@);
        r
    }

    /// The identifier of the modal that answers the interaction `id`: the
    /// interaction's number in decimal digits.
    pub fn modal_custom_id(id: InteractionId) -> (r: String)
        ensures
            r@ == decimal(id.0),
    {
        decimal_text(id.0)
    }

    /// Whether `row` is the row of the text input `input` at place `place`: the
    /// input with its place, in decimal digits, as identifier.
    pub open spec fn is_row(row: CreateActionRow, input: CreateInputText, place: int) -> bool {
        &&& row matches CreateActionRow::InputText(shown)
        &&& 0 <= place <= u64::MAX
        &&& shown.custom_id@ == decimal(place as u64)
        &&& shown == (CreateInputText { custom_id: shown.custom_id, ..input })
    }

    /// The rows of the modal: one for each text input, in their order.
    pub fn rows(&self) -> (r: Vec<CreateActionRow>)
        ensures
            r@.len() == self.input_texts@.len(),
            forall|i: int|
                0 <= i < r@.len() ==> CreateQuickModal::is_row(
                    #[trigger] r@[i],
                    self.input_texts@[i],
                    i,
                ),
    {
        let mut rows: Vec<CreateActionRow> = Vec::new();
        let mut i: usize = 0;
        while i < self.input_texts.len()
            invariant
                i <= self.input_texts.len(),
                rows@.len() == i,
                forall|k: int|
                    0 <= k < i ==> CreateQuickModal::is_row(
                        #[trigger] rows@[k],
                        self.input_texts@[k],
                        k,
                    ),
            decreases self.input_texts.len() - i,
        {
            let input = &self.input_texts[i];
            let shown = CreateInputText {
                style: input.style,
                label: input.label.clone(),
                custom_id: decimal_text(i as u64),
                placeholder: input.placeholder.clone(),
                min_length: input.min_length,
                max_length: input.max_length,
                value: input.value.clone(),
                required: input.required,
                kind: input.kind,
            };
            rows.push(CreateActionRow::InputText(shown));
            i = i + 1;
        }
        rows
    }

    /// Whether `j` is the answer that shows the modal for the interaction `id`:
    /// the kind of a modal, and as data the modal's identifier, its title and
    /// rows that are the rows of the text inputs.
    pub open spec fn is_answer_json(&self, id: InteractionId, j: Json) -> bool {
        exists|rows: Seq<CreateActionRow>|
            {
                &&& rows.len() == self.input_texts@.len()
                &&& forall|i: int|
                    0 <= i < rows.len() ==> CreateQuickModal::is_row(
                        #[trigger] rows[i],
                        self.input_texts@[i],
                        i,
                    )
                &&& j == Json::Object(
                    seq![
                        ("type"@, Json::Number(MODAL_ANSWER)),
                        (
                            "data"@,
                            Json::Object(
                                seq![
                                    ("custom_id"@, Json::Text(decimal(id.0))),
                                    ("title"@, Json::Text(self.title@)),
                                    ("components"@, Json::Array(rows_json(rows))),
                                ],
                            ),
                        ),
                    ],
                )
            }
    }

    /// The answer to the interaction `id` that shows the modal, as JSON.
    pub fn answer(&self, id: InteractionId) -> (r: Value)
        ensures
            self.is_answer_json(id, r@),
    {
        let rows = self.rows();
        let mut components: Vec<Value> = Vec::new();
        let mut i: usize = 0;
        while i < rows.len()
            invariant
                i <= rows.len(),
                components@.len() == i,
                forall|k: int| 0 <= k < i ==> (#[trigger] components@[k])@ == rows@[k].json(),
            decreases rows.len() - i,
        {
            components.push(rows[i].to_json());
            i = i + 1;
        }
        assert(items_view(components@) =~= rows_json(rows@));
        let mut data = ObjectWriter::new();
        data.put("custom_id", Value::String(CreateQuickModal::modal_custom_id(id)));
        data.put("title", Value::String(self.title.clone()));
        data.put("components", Value::array(components));
        assert(data@ =~= seq![
            ("custom_id"@, Json::Text(decimal(id.0))),
            ("title"@, Json::Text(self.title@)),
            ("components"@, Json::Array(rows_json(rows@))),
        ]);
        let mut object = ObjectWriter::new();
        object.put("type", Value::Number(MODAL_ANSWER));
        object.put("data", data.finish());
        let r = object.finish();
        assert(r@->Object_0 =~= seq![
            ("type"@, Json::Number(MODAL_ANSWER)),
            (
                "data"@,
                Json::Object(
                    seq![
                        ("custom_id"@, Json::Text(decimal(id.0))),
                        ("title"@, Json::Text(self.title@)),
                        ("components"@, Json::Array(rows_json(rows@))),
                    ],
                ),
            ),
        ]);
        r
    }

    /// Whether `submitted` hands in the modal with the identifier `custom_id`.
    pub fn is_answer(custom_id: &String, submitted: &ModalSubmitInteraction) -> (r: bool)
        ensures
            r == (submitted.custom_id@ == custom_id@),
    {
        submitted.custom_id == *custom_id
    }
}

impl QuickModalResponse {
    /// What the user answered by `interaction`: what each text input holds, in
    /// their order.
    pub fn new(interaction: ModalSubmitInteraction) -> (r: Self)
        ensures
            r.interaction == interaction,
            r.inputs@.len() == interaction.inputs@.len(),
            forall|i: int|
                0 <= i < r.inputs@.len() ==> (#[trigger] r.inputs@[i])
                    == interaction.inputs@[i].value,
    {
        let mut inputs: Vec<String> = Vec::new();
        let mut i: usize = 0;
        while i < interaction.inputs.len()
            invariant
                i <= interaction.inputs.len(),
                inputs@.len() == i,
                forall|k: int|
                    0 <= k < i ==> (#[trigger] inputs@[k]) == interaction.inputs@[k].value,
            decreases interaction.inputs.len() - i,
        {
            inputs.push(interaction.inputs[i].value.clone());
            i = i + 1;
        }
        QuickModalResponse { interaction, inputs }
    }
}

} // verus!
