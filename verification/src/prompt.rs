//! The fields that an interactive setup asks for.

use vstd::prelude::*;

use crate::text::str_eq;

verus! {

/// An answer in the setup.
#[derive(Debug, Clone, PartialEq, Eq)]
pub enum FieldValue {
    String(String),
    Integer(i64),
    Boolean(bool),
}

/// The content of an answer.
pub enum FieldContent {
    String(Seq<char>),
    Integer(i64),
    Boolean(bool),
}

impl View for FieldValue {
    type V = FieldContent;

    open spec fn view(&self) -> FieldContent {
        match *self {
            FieldValue::String(s) => FieldContent::String(s@),
            FieldValue::Integer(i) => FieldContent::Integer(i),
            FieldValue::Boolean(b) => FieldContent::Boolean(b),
        }
    }
}

impl FieldValue {
    /// Whether two answers are the same.
    pub fn same(&self, other: &FieldValue) -> (r: bool)
        ensures
            r == (self@ == other@),
    {
        match (self, other) {
            (FieldValue::String(a), FieldValue::String(b)) => str_eq(a.as_str(), b.as_str()),
            (FieldValue::Integer(a), FieldValue::Integer(b)) => *a == *b,
            (FieldValue::Boolean(a), FieldValue::Boolean(b)) => *a == *b,
            _ => false,
        }
    }
}

/// How a field is asked for.
#[derive(Debug)]
pub enum FieldKind {
    /// A line of text, which may be left empty unless it is required.
    Input { required: bool, default: Option<&'static str> },
    /// A line of text that is not shown.
    Password,
    /// One of several options.
    Select { options: Vec<&'static str>, selected: usize },
}

/// A field that is asked for, where its condition holds.
#[derive(Debug)]
pub struct ConfigField {
    pub name: &'static str,
    pub prompt: &'static str,
    pub kind: FieldKind,
    /// The field and the answer in it without which this field is not asked for.
    pub condition: Option<(&'static str, FieldValue)>,
}

/// The content of a [`FieldKind`].
pub enum PromptKind {
    Input { required: bool, default: Option<Seq<char>> },
    Password,
    Select { options: Seq<Seq<char>>, selected: int },
}

/// The content of a [`ConfigField`].
pub struct Prompt {
    pub name: Seq<char>,
    pub prompt: Seq<char>,
    pub kind: PromptKind,
    pub condition: Option<(Seq<char>, FieldContent)>,
}

impl Prompt {
    pub open spec fn input(name: Seq<char>, prompt: Seq<char>) -> Prompt {
        let kind = PromptKind::Input { required: true, default: None };
        Prompt { name, prompt, kind, condition: None }
    }

    pub open spec fn optional_input(
        name: Seq<char>,
        prompt: Seq<char>,
        default: Option<Seq<char>>,
    ) -> Prompt {
        let kind = PromptKind::Input { required: false, default };
        Prompt { name, prompt, kind, condition: None }
    }

    pub open spec fn password(name: Seq<char>, prompt: Seq<char>) -> Prompt {
        Prompt { name, prompt, kind: PromptKind::Password, condition: None }
    }

    pub open spec fn select(
        name: Seq<char>,
        prompt: Seq<char>,
        options: Seq<Seq<char>>,
        selected: int,
    ) -> Prompt {
        Prompt { name, prompt, kind: PromptKind::Select { options, selected }, condition: None }
    }

    pub open spec fn when(self, field: Seq<char>, value: FieldContent) -> Prompt {
        Prompt { condition: Some((field, value)), ..self }
    }
}

/// The characters of each text.
pub open spec fn texts(list: Seq<&'static str>) -> Seq<Seq<char>> {
    Seq::new(list.len(), |i: int| list[i]@)
}

impl View for FieldKind {
    type V = PromptKind;

    open spec fn view(&self) -> PromptKind {
        match *self {
            FieldKind::Input { required, default } => PromptKind::Input {
                required,
                default: match default {
                    Some(s) => Some(s@),
                    None => None,
                },
            },
            FieldKind::Password => PromptKind::Password,
            FieldKind::Select { options, selected } => PromptKind::Select {
                options: texts(options@),
                selected: selected as int,
            },
        }
    }
}

impl View for ConfigField {
    type V = Prompt;

    open spec fn view(&self) -> Prompt {
        Prompt {
            name: self.name@,
            prompt: self.prompt@,
            kind: self.kind@,
            condition: match self.condition {
                Some((field, value)) => Some((field@, value@)),
                None => None,
            },
        }
    }
}

impl ConfigField {
    /// A required line of text.
    pub fn input(name: &'static str, prompt: &'static str) -> (field: ConfigField)
        ensures
            field@ == Prompt::input(name@, prompt@),
    {
        ConfigField {
            name,
            prompt,
            kind: FieldKind::Input { required: true, default: None },
            condition: None,
        }
    }

    /// A line of text that may be left empty.
    pub fn optional_input(
        name: &'static str,
        prompt: &'static str,
        default: Option<&'static str>,
    ) -> (field: ConfigField)
        ensures
            field@ == Prompt::optional_input(
                name@,
                prompt@,
                match default {
                    Some(s) => Some(s@),
                    None => None,
                },
            ),
    {
        ConfigField {
            name,
            prompt,
            kind: FieldKind::Input { required: false, default },
            condition: None,
        }
    }

    /// A line of text that is not shown.
    pub fn password(name: &'static str, prompt: &'static str) -> (field: ConfigField)
        ensures
            field@ == Prompt::password(name@, prompt@),
    {
        ConfigField { name, prompt, kind: FieldKind::Password, condition: None }
    }

    /// One of `options`, the one at `selected` at first.
    pub fn select(
        name: &'static str,
        prompt: &'static str,
        options: Vec<&'static str>,
        selected: usize,
    ) -> (field: ConfigField)
        ensures
            field@ == Prompt::select(name@, prompt@, texts(options@), selected as int),
    {
        ConfigField { name, prompt, kind: FieldKind::Select { options, selected }, condition: None }
    }

    /// The field, asked for only where `field` holds the answer `value`.
    pub fn when_field_equals(self, field: &'static str, value: FieldValue) -> (r: ConfigField)
        ensures
            r@ == self@.when(field@, value@),
    {
        ConfigField {
            name: self.name,
            prompt: self.prompt,
            kind: self.kind,
            condition: Some((field, value)),
        }
    }
}

} // verus!
