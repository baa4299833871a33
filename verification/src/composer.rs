//! The prompt composer: the text being written, and the attachments that go with it.

use vstd::prelude::*;
use vstd::string::*;

verus! {

/// An image attached to a prompt.
#[derive(Debug, Clone, PartialEq, Eq)]
pub struct PromptImage {
    pub element_id: u64,
    pub mime_type: String,
    pub data: Vec<u8>,
}

/// The contents of a [`PromptImage`].
pub struct ImageModel {
    pub element_id: u64,
    pub mime_type: Seq<char>,
    pub data: Seq<u8>,
}

impl View for PromptImage {
    type V = ImageModel;

    open spec fn view(&self) -> ImageModel {
        ImageModel {
            element_id: self.element_id,
            mime_type: self.mime_type@,
            data: self.data@,
        }
    }
}

/// The contents of each image of a list.
pub open spec fn images_of(images: Seq<PromptImage>) -> Seq<ImageModel> {
    Seq::new(images.len(), |i: int| images[i]@)
}

/// A prompt's text and images, in the composer or stashed away from it.
pub struct PromptModel {
    pub text: Seq<char>,
    pub images: Seq<ImageModel>,
}

impl PromptModel {
    /// The composer with nothing in it.
    pub open spec fn blank() -> PromptModel {
        PromptModel { text: Seq::empty(), images: Seq::empty() }
    }

    /// What stashing this composer yields: nothing when no text was written.
    pub open spec fn stashed(self) -> Option<PromptModel> {
        if self.text.len() == 0 {
            None
        } else {
            Some(self)
        }
    }

    /// What stashing leaves in this composer.
    pub open spec fn after_stash(self) -> PromptModel {
        if self.text.len() == 0 {
            self
        } else {
            PromptModel::blank()
        }
    }
}

/// A draft taken out of the composer while the overlay has the input.
#[derive(Debug, PartialEq, Eq)]
pub struct StashedPrompt {
    pub text: String,
    pub images: Vec<PromptImage>,
}

impl View for StashedPrompt {
    type V = PromptModel;

    open spec fn view(&self) -> PromptModel {
        PromptModel { text: self.text@, images: images_of(self.images@) }
    }
}

/// The contents of an optional draft.
pub open spec fn draft_of(draft: Option<StashedPrompt>) -> Option<PromptModel> {
    match draft {
        Some(d) => Some(d@),
        None => None,
    }
}

/// The prompt composer.
#[derive(Debug, PartialEq, Eq)]
pub struct PromptWidget {
    pub text: String,
    pub images: Vec<PromptImage>,
}

impl View for PromptWidget {
    type V = PromptModel;

    open spec fn view(&self) -> PromptModel {
        PromptModel { text: self.text@, images: images_of(self.images@) }
    }
}

impl PromptWidget {
    /// An empty composer.
    pub fn new() -> (r: Self)
        ensures
            r@ == PromptModel::blank(),
    {
        let r = PromptWidget { text: String::new(), images: Vec::new() };
        assert(r@.images =~= PromptModel::blank().images);
        r
    }

    /// The text written so far.
    pub fn text(&self) -> (r: &str)
        ensures
            r@ == self@.text,
    {
        self.text.as_str()
    }

    /// Takes the whole draft out and leaves the composer empty.
    pub fn stash(&mut self) -> (r: StashedPrompt)
        ensures
            r@ == old(self)@,
            final(self)@ == PromptModel::blank(),
    {
        let mut text = String::new();
        let mut images: Vec<PromptImage> = Vec::new();
        std::mem::swap(&mut text, &mut self.text);
        std::mem::swap(&mut images, &mut self.images);
        assert(self@.images =~= PromptModel::blank().images);
        StashedPrompt { text, images }
    }

    /// Puts a stashed draft back in place of what the composer holds.
    pub fn restore(&mut self, draft: StashedPrompt)
        ensures
            final(self)@ == draft@,
    {
        self.text = draft.text;
        self.images = draft.images;
    }

    /// Replaces the draft with plain text.
    pub fn set_text(&mut self, text: &str)
        ensures
            final(self)@ == (PromptModel { text: text@, images: Seq::empty() }),
    {
        self.text = text.to_owned();
        self.images = Vec::new();
        assert(self@.images =~= Seq::<ImageModel>::empty());
    }

    /// Adds text after the draft; attachments stay.
    pub fn append_text(&mut self, text: &str)
        ensures
            final(self)@ == (PromptModel { text: old(self)@.text + text@, ..old(self)@ }),
    {
        self.text.append(text);
    }
}

/// Stashes the composer unless it is empty.
pub fn stash_prompt(prompt: &mut PromptWidget) -> (r: Option<StashedPrompt>)
    ensures
        draft_of(r) == old(prompt)@.stashed(),
        final(prompt)@ == old(prompt)@.after_stash(),
{
    if prompt.text().is_empty() {
        None
    } else {
        Some(prompt.stash())
    }
}

} // verus!
