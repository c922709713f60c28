use crate::ledger::NewEntry;
use crate::text::text_eq;
use vstd::prelude::*;

verus! {

/// The parts of an art submission form, by field name.
#[derive(Debug, Clone, Copy, PartialEq, Eq, Structural)]
pub enum FormField {
    /// `title`
    Title,
    /// `description`
    Description,
    /// `isNsfw`, true when its text is `true`
    IsNsfw,
    /// `data`, the image bytes
    Data,
    /// Any other name, which is ignored.
    Other,
}

/// The part that a field name stands for.
pub fn field_kind(name: &str) -> (r: FormField)
    ensures
        name@ == "title"@ ==> r == FormField::Title,
        name@ == "description"@ ==> r == FormField::Description,
        name@ == "isNsfw"@ ==> r == FormField::IsNsfw,
        name@ == "data"@ ==> r == FormField::Data,
        name@ != "title"@ && name@ != "description"@ && name@ != "isNsfw"@ && name@ != "data"@
            ==> r == FormField::Other,
{
    proof {
        reveal_strlit("title");
        reveal_strlit("description");
        reveal_strlit("isNsfw");
        reveal_strlit("data");
        assert("title"@.len() == 5 && "description"@.len() == 11);
        assert("isNsfw"@.len() == 6 && "data"@.len() == 4);
    }
    if text_eq(name, "title") {
        FormField::Title
    } else if text_eq(name, "description") {
        FormField::Description
    } else if text_eq(name, "isNsfw") {
        FormField::IsNsfw
    } else if text_eq(name, "data") {
        FormField::Data
    } else {
        FormField::Other
    }
}

/// A required part that the form did not hold.
#[derive(Debug, Clone, Copy, PartialEq, Eq, Structural)]
pub enum FormError {
    MissingTitle,
    MissingDescription,
    MissingIsNsfw,
    MissingData,
}

impl FormError {
    /// Short message for the client.
    pub fn message(&self) -> &'static str {
        match self {
            FormError::MissingTitle => "title not found",
            FormError::MissingDescription => "description not found",
            FormError::MissingIsNsfw => "isNsfw not found",
            FormError::MissingData => "data not found",
        }
    }
}

/// The parts of an art submission read so far; a later field of the same
/// name replaces an earlier one.
#[derive(Debug)]
pub struct ArtForm {
    pub title: Option<String>,
    pub description: Option<String>,
    pub is_nsfw: Option<bool>,
    pub data: Option<Vec<u8>>,
}

impl ArtForm {
    pub fn new() -> (r: ArtForm)
        ensures
            r.title is None,
            r.description is None,
            r.is_nsfw is None,
            r.data is None,
    {
        ArtForm { title: None, description: None, is_nsfw: None, data: None }
    }

    /// Takes the text of a field; the image and unknown fields take no text.
    pub fn set_text(&mut self, kind: FormField, text: String)
        ensures
            kind == FormField::Title ==> (final(self).title matches Some(t) && t@ == text@),
            kind == FormField::Description ==> (final(self).description matches Some(t) && t@
                == text@),
            kind == FormField::IsNsfw ==> final(self).is_nsfw == Some(text@ == "true"@),
            kind != FormField::Title ==> final(self).title == old(self).title,
            kind != FormField::Description ==> final(self).description == old(self).description,
            kind != FormField::IsNsfw ==> final(self).is_nsfw == old(self).is_nsfw,
            final(self).data == old(self).data,
    {
        match kind {
            FormField::Title => self.title = Some(text),
            FormField::Description => self.description = Some(text),
            FormField::IsNsfw => self.is_nsfw = Some(text_eq(text.as_str(), "true")),
            FormField::Data | FormField::Other => {},
        }
    }

    /// Takes the image bytes.
    pub fn set_data(&mut self, data: Vec<u8>)
        ensures
            final(self).data matches Some(d) && d@ == data@,
            final(self).title == old(self).title,
            final(self).description == old(self).description,
            final(self).is_nsfw == old(self).is_nsfw,
    {
        self.data = Some(data);
    }

    /// The entry that the form describes, the description as its text; the
    /// first missing part, in the order title, description, isNsfw, data, is
    /// reported.
    pub fn finish(self) -> (r: Result<NewEntry, FormError>)
        ensures
            self.title is None ==> r == Err::<NewEntry, FormError>(FormError::MissingTitle),
            self.title is Some && self.description is None ==> r == Err::<NewEntry, FormError>(
                FormError::MissingDescription,
            ),
            self.title is Some && self.description is Some && self.is_nsfw is None ==> r == Err::<
                NewEntry,
                FormError,
            >(FormError::MissingIsNsfw),
            self.title is Some && self.description is Some && self.is_nsfw is Some
                && self.data is None ==> r == Err::<NewEntry, FormError>(FormError::MissingData),
            self.title is Some && self.description is Some && self.is_nsfw is Some
                && self.data is Some ==> (r matches Ok(e) && e.title@ == self.title->Some_0@
                && e.text@ == self.description->Some_0@ && e.is_nsfw == self.is_nsfw->Some_0
                && e.data@ == self.data->Some_0@),
    {
        let ArtForm { title, description, is_nsfw, data } = self;
        let title = match title {
            Some(t) => t,
            None => return Err(FormError::MissingTitle),
        };
        let text = match description {
            Some(d) => d,
            None => return Err(FormError::MissingDescription),
        };
        let is_nsfw = match is_nsfw {
            Some(b) => b,
            None => return Err(FormError::MissingIsNsfw),
        };
        let data = match data {
            Some(d) => d,
            None => return Err(FormError::MissingData),
        };
        Ok(NewEntry { title, text, data, is_nsfw })
    }
}

} // verus!
