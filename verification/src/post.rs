use vstd::prelude::*;
use vstd::std_specs::iter::IteratorSpec;

verus! {

/// Whether a character carries the Unicode `White_Space` property.
pub open spec fn is_white_space(c: char) -> bool {
    let n = c as u32;
    (0x09 <= n <= 0x0D) || n == 0x20 || n == 0x85 || n == 0xA0 || n == 0x1680 || (0x2000 <= n
        <= 0x200A) || n == 0x2028 || n == 0x2029 || n == 0x202F || n == 0x205F || n == 0x3000
}

/// A text is blank when nothing but white space is in it; the empty text is blank.
pub open spec fn is_blank(s: Seq<char>) -> bool {
    forall|i: int| 0 <= i < s.len() ==> is_white_space(#[trigger] s[i])
}

/// The reasons for which an input is turned away before the store is touched.
#[derive(Clone, Copy, Debug, PartialEq, Eq, Structural)]
pub enum ValidationError {
    EmptyTitle,
    EmptySlug,
    EmptyBody,
    InvalidId,
}

/// What a post is, as a mathematical value.
pub struct PostView {
    pub id: Option<i32>,
    pub title: Seq<char>,
    pub slug: Seq<char>,
    pub body: Seq<char>,
}

impl PostView {
    /// A post is valid when none of its three texts is blank.
    pub open spec fn is_valid(self) -> bool {
        !is_blank(self.title) && !is_blank(self.slug) && !is_blank(self.body)
    }

    /// The first field that fails, in the order title, slug, body.
    pub open spec fn validation(self) -> Result<(), ValidationError> {
        if is_blank(self.title) {
            Err(ValidationError::EmptyTitle)
        } else if is_blank(self.slug) {
            Err(ValidationError::EmptySlug)
        } else if is_blank(self.body) {
            Err(ValidationError::EmptyBody)
        } else {
            Ok(())
        }
    }

    /// The same post with another title and body.
    pub open spec fn revised(self, title: Seq<char>, body: Seq<char>) -> PostView {
        PostView { id: self.id, title, slug: self.slug, body }
    }

    /// The same post under the identifier `id`.
    pub open spec fn stored_as(self, id: i32) -> PostView {
        PostView { id: Some(id), title: self.title, slug: self.slug, body: self.body }
    }
}

/// A blog post: the identifier is absent until the post has been stored.
#[derive(Debug, PartialEq, Eq)]
pub struct Post {
    pub id: Option<i32>,
    pub title: String,
    pub slug: String,
    pub body: String,
}

impl View for Post {
    type V = PostView;

    open spec fn view(&self) -> PostView {
        PostView { id: self.id, title: self.title@, slug: self.slug@, body: self.body@ }
    }
}

impl Clone for Post {
    fn clone(&self) -> (r: Self)
        ensures
            r == *self,
    {
        Post {
            id: self.id,
            title: self.title.clone(),
            slug: self.slug.clone(),
            body: self.body.clone(),
        }
    }
}

/// Tells whether `c` is white space.
pub fn char_is_white_space(c: char) -> (r: bool)
    ensures
        r == is_white_space(c),
{
    let n: u32 = c as u32;
    (0x09 <= n && n <= 0x0D) || n == 0x20 || n == 0x85 || n == 0xA0 || n == 0x1680 || (0x2000 <= n
        && n <= 0x200A) || n == 0x2028 || n == 0x2029 || n == 0x202F || n == 0x205F || n
        == 0x3000
}

/// Tells whether `s` is blank, reading it once from the left up to the first
/// character that is no white space.
pub fn text_is_blank(s: &str) -> (r: bool)
    ensures
        r == is_blank(s@),
{
    let mut rest = s.chars();
    let ghost mut seen: int = 0;
    loop
        invariant
            0 <= seen <= s@.len(),
            rest.remaining() == s@.subrange(seen, s@.len() as int),
            forall|i: int| 0 <= i < seen ==> is_white_space(#[trigger] s@[i]),
        decreases s@.len() - seen,
    {
        match rest.next() {
            None => {
                return true;
            },
            Some(c) => {
                if !char_is_white_space(c) {
                    assert(s@[seen] == c);
                    return false;
                }
                proof {
                    assert(s@.subrange(seen, s@.len() as int).drop_first() =~= s@.subrange(
                        seen + 1,
                        s@.len() as int,
                    ));
                    seen = seen + 1;
                }
            },
        }
    }
}

impl Post {
    /// A post that has not been stored yet.
    pub fn new(title: String, slug: String, body: String) -> (r: Self)
        ensures
            r@ == (PostView { id: None, title: title@, slug: slug@, body: body@ }),
    {
        Post { id: None, title, slug, body }
    }

    /// A post as it stands in the store under `id`.
    pub fn with_id(id: i32, title: String, slug: String, body: String) -> (r: Self)
        ensures
            r@ == (PostView { id: Some(id), title: title@, slug: slug@, body: body@ }),
    {
        Post { id: Some(id), title, slug, body }
    }

    /// Checks the three texts in the order title, slug, body and names the
    /// first blank one.
    pub fn validate(&self) -> (r: Result<(), ValidationError>)
        ensures
            r == self@.validation(),
            r is Ok <==> self@.is_valid(),
    {
        if text_is_blank(self.title.as_str()) {
            return Err(ValidationError::EmptyTitle);
        }
        if text_is_blank(self.slug.as_str()) {
            return Err(ValidationError::EmptySlug);
        }
        if text_is_blank(self.body.as_str()) {
            return Err(ValidationError::EmptyBody);
        }
        Ok(())
    }

    /// Replaces title and body; identifier and slug stay.
    pub fn update(&mut self, title: String, body: String)
        ensures
            final(self)@ == old(self)@.revised(title@, body@),
    {
        self.title = title;
        self.body = body;
    }
}

impl ValidationError {
    /// The sentence shown to the caller.
    pub fn message(&self) -> (r: String)
        ensures
            r@ == self.message_text(),
    {
        match self {
            ValidationError::EmptyTitle => "Title cannot be empty".to_string(),
            ValidationError::EmptySlug => "Slug cannot be empty".to_string(),
            ValidationError::EmptyBody => "Body cannot be empty".to_string(),
            ValidationError::InvalidId => "Invalid post ID".to_string(),
        }
    }

    pub open spec fn message_text(&self) -> Seq<char> {
        match self {
            ValidationError::EmptyTitle => "Title cannot be empty"@,
            ValidationError::EmptySlug => "Slug cannot be empty"@,
            ValidationError::EmptyBody => "Body cannot be empty"@,
            ValidationError::InvalidId => "Invalid post ID"@,
        }
    }
}

} // verus!
