use vstd::prelude::*;

verus! {

/// The width that hints are laid out for unless told otherwise.
pub const DEFAULT_MAX_WIDTH: usize = 80;

/// `items` joined with a newline between each two of them.
pub open spec fn joined_lines(items: Seq<Seq<char>>) -> Seq<char>
    decreases items.len(),
{
    if items.len() == 0 {
        Seq::empty()
    } else if items.len() == 1 {
        items[0]
    } else {
        joined_lines(items.drop_last()) + seq!['\n'] + items.last()
    }
}

/// The text of a hint: the title, a blank line, the text before the items
/// followed by a blank line when there is any, then the items one per line.
pub open spec fn hint_text(title: Seq<char>, before_text: Seq<char>, items: Seq<Seq<char>>) -> Seq<char> {
    title + seq!['\n', '\n'] + (if before_text.len() == 0 {
        Seq::empty()
    } else {
        before_text + seq!['\n', '\n']
    }) + joined_lines(items) + seq!['\n']
}

pub open spec fn views_of(v: Seq<String>) -> Seq<Seq<char>> {
    v.map_values(|s: String| s@)
}

/// A short, formatted message that tells the user how to recover from an
/// error.
pub struct Hint {
    pub title: String,
    pub before_text: String,
    pub after_text: String,
    pub items: Vec<String>,
    max_width: usize,
}

/// Collects the parts of a [`Hint`].
pub struct HintBuilder {
    title: String,
    before_text: String,
    after_text: String,
    items: Vec<String>,
    max_width: usize,
}

/// A copy of `items`, line by line.
pub fn copy_lines(items: &Vec<String>) -> (r: Vec<String>)
    ensures
        views_of(r@) == views_of(items@),
{
    let mut r: Vec<String> = Vec::new();
    let mut i: usize = 0;
    while i < items.len()
        invariant
            i <= items.len(),
            r@.len() == i,
            forall|j: int| 0 <= j < i ==> #[trigger] r@[j]@ == items@[j]@,
        decreases items.len() - i,
    {
        let line = items[i].clone();
        assert(line@ == items@[i as int]@);
        r.push(line);
        i = i + 1;
    }
    assert(views_of(r@) =~= views_of(items@));
    r
}

impl Default for HintBuilder {
    fn default() -> (r: Self)
        ensures
            r.spec_title() == Seq::<char>::empty(),
            r.spec_before_text() == Seq::<char>::empty(),
            r.spec_after_text() == Seq::<char>::empty(),
            r.spec_items().len() == 0,
            r.spec_max_width() == DEFAULT_MAX_WIDTH,
    {
        HintBuilder {
            max_width: DEFAULT_MAX_WIDTH,
            title: String::new(),
            before_text: String::new(),
            after_text: String::new(),
            items: Vec::new(),
        }
    }
}

impl Hint {
    pub closed spec fn spec_title(&self) -> Seq<char> {
        self.title@
    }

    pub closed spec fn spec_before_text(&self) -> Seq<char> {
        self.before_text@
    }

    pub closed spec fn spec_after_text(&self) -> Seq<char> {
        self.after_text@
    }

    pub closed spec fn spec_items(&self) -> Seq<Seq<char>> {
        views_of(self.items@)
    }

    pub closed spec fn spec_max_width(&self) -> usize {
        self.max_width
    }

    /// A hint with every part empty.
    pub fn new() -> (r: Self)
        ensures
            r.spec_title() == Seq::<char>::empty(),
            r.spec_before_text() == Seq::<char>::empty(),
            r.spec_after_text() == Seq::<char>::empty(),
            r.spec_items().len() == 0,
            r.spec_max_width() == DEFAULT_MAX_WIDTH,
    {
        Self::builder().build()
    }

    /// A builder with every part empty.
    pub fn builder() -> (r: HintBuilder)
        ensures
            r.spec_title() == Seq::<char>::empty(),
            r.spec_before_text() == Seq::<char>::empty(),
            r.spec_after_text() == Seq::<char>::empty(),
            r.spec_items().len() == 0,
            r.spec_max_width() == DEFAULT_MAX_WIDTH,
    {
        HintBuilder::default()
    }

    pub fn max_width(&self) -> (r: usize)
        ensures
            r == self.spec_max_width(),
    {
        self.max_width
    }

    /// The hint as it is printed.
    pub fn render(&self) -> (r: String)
        ensures
            r@ == hint_text(self.spec_title(), self.spec_before_text(), self.spec_items()),
    {
        let mut out = self.title.clone();
        proof { reveal_strlit("\n\n"); reveal_strlit("\n"); }
        out.append("\n\n");
        if !self.before_text.as_str().is_empty() {
            out.append(self.before_text.as_str());
            out.append("\n\n");
        }
        let ghost head = out@;
        assert(head == self.title@ + seq!['\n', '\n'] + (if self.before_text@.len() == 0 {
            Seq::<char>::empty()
        } else {
            self.before_text@ + seq!['\n', '\n']
        })) by {
            if self.before_text@.len() == 0 {
                assert(head =~= self.title@ + seq!['\n', '\n'] + Seq::<char>::empty());
            }
        }
        let mut i: usize = 0;
        while i < self.items.len()
            invariant
                i <= self.items.len(),
                out@ == head + joined_lines(views_of(self.items@.take(i as int))),
            decreases self.items.len() - i,
        {
            let ghost prev = views_of(self.items@.take(i as int));
            let ghost before = out@;
            if i > 0 {
                proof { reveal_strlit("\n"); }
                out.append("\n");
                assert(out@ =~= before + seq!['\n']);
            }
            let ghost mid = out@;
            out.append(self.items[i].as_str());
            assert(out@ =~= mid + self.items@[i as int]@);
            i = i + 1;
            let ghost next = views_of(self.items@.take(i as int));
            assert(next.drop_last() =~= prev);
            assert(next.last() == self.items@[i - 1]@);
            if i == 1 {
                assert(out@ =~= head + joined_lines(next));
            } else {
                assert(joined_lines(next) == joined_lines(prev) + seq!['\n'] + next.last());
                assert(out@ =~= head + joined_lines(prev) + seq!['\n'] + next.last());
            }
        }
        assert(self.items@.take(i as int) =~= self.items@);
        out.append("\n");
        assert(out@ =~= hint_text(self.title@, self.before_text@, views_of(self.items@)));
        out
    }
}

impl HintBuilder {
    pub closed spec fn spec_title(&self) -> Seq<char> {
        self.title@
    }

    pub closed spec fn spec_before_text(&self) -> Seq<char> {
        self.before_text@
    }

    pub closed spec fn spec_after_text(&self) -> Seq<char> {
        self.after_text@
    }

    pub closed spec fn spec_items(&self) -> Seq<Seq<char>> {
        views_of(self.items@)
    }

    pub closed spec fn spec_max_width(&self) -> usize {
        self.max_width
    }

    pub fn with_title(self, title: &str) -> (r: Self)
        ensures
            r.spec_title() == title@,
            r.spec_before_text() == self.spec_before_text(),
            r.spec_after_text() == self.spec_after_text(),
            r.spec_items() == self.spec_items(),
            r.spec_max_width() == self.spec_max_width(),
    {
        HintBuilder { title: String::from_str(title), ..self }
    }

    pub fn with_before_text(self, before_text: &str) -> (r: Self)
        ensures
            r.spec_title() == self.spec_title(),
            r.spec_before_text() == before_text@,
            r.spec_after_text() == self.spec_after_text(),
            r.spec_items() == self.spec_items(),
            r.spec_max_width() == self.spec_max_width(),
    {
        HintBuilder { before_text: String::from_str(before_text), ..self }
    }

    pub fn with_after_text(self, after_text: &str) -> (r: Self)
        ensures
            r.spec_title() == self.spec_title(),
            r.spec_before_text() == self.spec_before_text(),
            r.spec_after_text() == after_text@,
            r.spec_items() == self.spec_items(),
            r.spec_max_width() == self.spec_max_width(),
    {
        HintBuilder { after_text: String::from_str(after_text), ..self }
    }

    pub fn with_items(self, items: Vec<String>) -> (r: Self)
        ensures
            r.spec_title() == self.spec_title(),
            r.spec_before_text() == self.spec_before_text(),
            r.spec_after_text() == self.spec_after_text(),
            r.spec_items() == views_of(items@),
            r.spec_max_width() == self.spec_max_width(),
    {
        HintBuilder { items, ..self }
    }

    /// The hint made of the parts collected so far.
    pub fn build(&self) -> (r: Hint)
        ensures
            r.spec_title() == self.spec_title(),
            r.spec_before_text() == self.spec_before_text(),
            r.spec_after_text() == self.spec_after_text(),
            r.spec_items() == self.spec_items(),
            r.spec_max_width() == self.spec_max_width(),
    {
        Hint {
            before_text: self.before_text.clone(),
            after_text: self.after_text.clone(),
            title: self.title.clone(),
            items: copy_lines(&self.items),
            max_width: self.max_width,
        }
    }
}

} // verus!
