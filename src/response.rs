use vstd::prelude::*;

verus! {

/// One named value shown inside an embed.
pub struct EmbedField {
    pub name: String,
    pub value: String,
    pub inline: bool,
}

/// A rich-content panel, held as the plain values that the platform shows.
pub struct Embed {
    pub title: String,
    pub description: String,
    pub fields: Vec<EmbedField>,
}

/// An ordered, non-empty set of embeds shown one at a time.
pub struct EmbedPages {
    pages: Vec<Embed>,
}

impl View for EmbedPages {
    type V = Seq<Embed>;

    closed spec fn view(&self) -> Seq<Embed> {
        self.pages@
    }
}

impl EmbedPages {
    #[verifier::type_invariant]
    spec fn inv(self) -> bool {
        self.pages.len() > 0
    }

    /// Builds a page set; an empty sequence of pages is refused.
    pub fn new(pages: Vec<Embed>) -> (r: Option<EmbedPages>)
        ensures
            r is Some <==> pages@.len() > 0,
            r matches Some(p) ==> p@ == pages@,
    {
        if pages.len() == 0 {
            None
        } else {
            Some(EmbedPages { pages })
        }
    }

    /// The number of pages, never zero.
    pub fn len(&self) -> (r: usize)
        ensures
            r == self@.len(),
            r > 0,
    {
        proof {
            use_type_invariant(self);
        }
        self.pages.len()
    }

    /// The page at index `i`.
    pub fn page(&self, i: usize) -> (r: &Embed)
        requires
            i < self@.len(),
        ensures
            *r == self@[i as int],
    {
        &self.pages[i]
    }

    /// Gives the pages back, in order.
    pub fn into_pages(self) -> (r: Vec<Embed>)
        ensures
            r@ == self@,
            r@.len() > 0,
    {
        proof {
            use_type_invariant(&self);
        }
        self.pages
    }
}

/// What a command hands back to the dispatcher.
pub enum CommandReturn {
    /// No user-visible output.
    Empty,
    /// A single plain-text reply.
    Text(String),
    /// One rich-content panel.
    SingleEmbed(Embed),
    /// A paginated panel set.
    EmbedPages(EmbedPages),
}

} // verus!
