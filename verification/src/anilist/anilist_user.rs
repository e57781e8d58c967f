use vstd::prelude::*;
use crate::text::clone_optional;

verus! {

/// The two sizes of a user's avatar image, as URLs.
#[derive(Debug, PartialEq, Eq)]
pub struct Avatar {
    pub large: String,
    pub medium: String,
}

/// A user of the anime catalogue.
#[derive(Debug, PartialEq, Eq)]
pub struct AnilistUser {
    pub id: i32,
    pub name: String,
    pub avatar: Avatar,
    pub about: Option<String>,
}

/// The text of a field, or the empty text where the field is missing.
fn text_or_empty(field: Option<String>) -> (text: String)
    ensures
        match field {
            Some(given) => text == given,
            None => text@ == Seq::<char>::empty(),
        },
{
    match field {
        Some(given) => given,
        None => String::new(),
    }
}

impl AnilistUser {
    /// A user made from the fields of the catalogue's answer.
    ///
    /// A missing id counts as zero, and an id is cut down to its low 32
    /// bits. A missing name or picture address counts as the empty text.
    pub fn from_fields(
        id: Option<i64>,
        name: Option<String>,
        avatar_large: Option<String>,
        avatar_medium: Option<String>,
        about: Option<String>,
    ) -> (user: Self)
        ensures
            user.id == (match id {
                Some(given) => given,
                None => 0,
            }) as i32,
            name matches Some(given) ==> user.name == given,
            name is None ==> user.name@ == Seq::<char>::empty(),
            avatar_large matches Some(given) ==> user.avatar.large == given,
            avatar_large is None ==> user.avatar.large@ == Seq::<char>::empty(),
            avatar_medium matches Some(given) ==> user.avatar.medium == given,
            avatar_medium is None ==> user.avatar.medium@ == Seq::<char>::empty(),
            user.about == about,
    {
        let wide: i64 = match id {
            Some(given) => given,
            None => 0,
        };
        AnilistUser {
            id: #[verifier::truncate] (wide as i32),
            name: text_or_empty(name),
            avatar: Avatar { large: text_or_empty(avatar_large), medium: text_or_empty(avatar_medium) },
            about,
        }
    }
}

impl Clone for Avatar {
    fn clone(&self) -> (copy: Self)
        ensures
            copy == *self,
    {
        Avatar { large: self.large.clone(), medium: self.medium.clone() }
    }
}

impl Clone for AnilistUser {
    fn clone(&self) -> (copy: Self)
        ensures
            copy == *self,
    {
        AnilistUser {
            id: self.id,
            name: self.name.clone(),
            avatar: self.avatar.clone(),
            about: clone_optional(&self.about),
        }
    }
}

} // verus!
