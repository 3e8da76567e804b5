//! Moderation types.

use vstd::prelude::*;
use vstd::string::*;

verus! {

/// Moderation request.
#[derive(Debug, Clone, Default, PartialEq)]
pub struct ModerationRequest {
    /// Text(s) to classify.
    pub input: ModerationInput,
    /// Model ID.
    pub model: Option<String>,
}

/// One text or several texts to classify.
#[derive(Debug, Clone, PartialEq)]
pub enum ModerationInput {
    /// A single text.
    Single(String),
    /// Several texts.
    Multiple(Vec<String>),
}

impl Default for ModerationInput {
    /// A single empty text.
    fn default() -> (i: Self)
        ensures
            i matches ModerationInput::Single(t) && t@ == Seq::<char>::empty(),
    {
        ModerationInput::Single(String::new())
    }
}

/// Flags per moderation category.
#[derive(Debug, Clone, Copy, Default, PartialEq, Eq, Structural)]
pub struct ModerationCategories {
    /// Sexual content.
    pub sexual: bool,
    /// Hate.
    pub hate: bool,
    /// Harassment.
    pub harassment: bool,
    /// Self-harm.
    pub self_harm: bool,
    /// Sexual content involving minors.
    pub sexual_minors: bool,
    /// Threatening hate.
    pub hate_threatening: bool,
    /// Graphic violence.
    pub violence_graphic: bool,
    /// Self-harm intent.
    pub self_harm_intent: bool,
    /// Self-harm instructions.
    pub self_harm_instructions: bool,
    /// Threatening harassment.
    pub harassment_threatening: bool,
    /// Violence.
    pub violence: bool,
}

} // verus!
