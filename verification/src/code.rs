//! A small builder for generated source text.
//!
//! Code is accumulated as a sequence of items - literal lines and
//! indentation shifts - and rendered at the end with one tab per open
//! indentation level and a newline after every line.

use vstd::prelude::*;

verus! {

use vstd::string::StringExecFns;

/// One element of generated code: a literal line, or a shift of the
/// indentation level.
pub enum CodegenItem {
    /// A line of text, emitted with the current indentation.
    Line(String),
    /// Increases the indentation of the following lines by one tab.
    Indent,
    /// Decreases the indentation of the following lines by one tab.
    StopIndent,
}

impl CodegenItem {
    /// Wraps a line of text.
    pub fn line(s: &str) -> (r: CodegenItem)
        ensures
            r matches CodegenItem::Line(l) && l@ == s@,
    {
        CodegenItem::Line(s.to_owned())
    }
}

/// The mathematical shape of one item: the line's characters, or an
/// indentation shift.
pub enum ItemV {
    Line(Seq<char>),
    Indent,
    StopIndent,
}

/// The shape of one stored item.
pub open spec fn item_view(it: CodegenItem) -> ItemV {
    match it {
        CodegenItem::Line(l) => ItemV::Line(l@),
        CodegenItem::Indent => ItemV::Indent,
        CodegenItem::StopIndent => ItemV::StopIndent,
    }
}

/// The shapes of a stored item sequence.
pub open spec fn items_shape(items: Seq<CodegenItem>) -> Seq<ItemV> {
    items.map_values(|it: CodegenItem| item_view(it))
}

/// The indentation level in force after the first `upto` items.
pub open spec fn indent_depth(items: Seq<CodegenItem>, upto: int) -> int
    decreases upto,
{
    if upto <= 0 {
        0
    } else {
        indent_depth(items, upto - 1) + match items[upto - 1] {
            CodegenItem::Indent => 1,
            CodegenItem::StopIndent => -1,
            CodegenItem::Line(_) => 0,
        }
    }
}

/// No prefix of the items closes more indentation than it opened.
/// Rendering an unbalanced sequence would panic in the middle.
pub open spec fn balanced(items: Seq<CodegenItem>) -> bool {
    forall|k: int| 0 <= k <= items.len() ==> indent_depth(items, k) >= 0
}

/// `n` tabs.
pub open spec fn spec_tabs(n: int) -> Seq<char>
    decreases n,
{
    if n <= 0 {
        Seq::empty()
    } else {
        spec_tabs(n - 1) + "\t"@
    }
}

/// The rendering of the items from position `i` on, at the given
/// indentation depth.
pub open spec fn spec_rendered(items: Seq<CodegenItem>, i: int, depth: int) -> Seq<char>
    decreases items.len() - i,
{
    if i < 0 || i >= items.len() {
        Seq::empty()
    } else {
        match items[i] {
            CodegenItem::Indent => spec_rendered(items, i + 1, depth + 1),
            CodegenItem::StopIndent => spec_rendered(items, i + 1, depth - 1),
            CodegenItem::Line(l) => spec_tabs(depth) + l@ + "\n"@ + spec_rendered(
                items,
                i + 1,
                depth,
            ),
        }
    }
}

/// The full rendering of an item sequence.
pub open spec fn spec_code_string(items: Seq<CodegenItem>) -> Seq<char> {
    spec_rendered(items, 0, 0)
}

/// The indentation level never exceeds the number of items seen.
proof fn lemma_indent_depth_bound(items: Seq<CodegenItem>, upto: int)
    requires
        0 <= upto <= items.len(),
    ensures
        indent_depth(items, upto) <= upto,
    decreases upto,
{
    if upto > 0 {
        lemma_indent_depth_bound(items, upto - 1);
    }
}

/// A builder for generated source text.
pub struct Code {
    items: Vec<CodegenItem>,
}

impl Code {
    /// The accumulated items.
    pub closed spec fn items_view(&self) -> Seq<CodegenItem> {
        self.items@
    }

    /// The shapes of the accumulated items: what the code holds,
    /// with every line as its character sequence.
    pub open spec fn shape(&self) -> Seq<ItemV> {
        items_shape(self.items_view())
    }

    /// An empty piece of code.
    pub fn new() -> (r: Code)
        ensures
            r.items_view() =~= Seq::<CodegenItem>::empty(),
            r.shape() =~= Seq::<ItemV>::empty(),
    {
        let r = Code { items: Vec::new() };
        proof {
            assert(r.shape() =~= Seq::<ItemV>::empty());
        }
        r
    }

    /// Appends a literal line.
    pub fn line(self, s: &str) -> (r: Code)
        ensures
            r.items_view().len() == self.items_view().len() + 1,
            r.items_view().drop_last() == self.items_view(),
            r.items_view().last() matches CodegenItem::Line(l) && l@ == s@,
            r.shape() =~= self.shape().push(ItemV::Line(s@)),
    {
        let mut c = self;
        c.items.push(CodegenItem::line(s));
        proof {
            assert(c.items@.drop_last() =~= self.items@);
            assert(c.shape() =~= items_shape(self.items@).push(ItemV::Line(s@)));
        }
        c
    }

    /// Opens one level of indentation.
    pub fn indent(self) -> (r: Code)
        ensures
            r.items_view() == self.items_view().push(CodegenItem::Indent),
            r.shape() =~= self.shape().push(ItemV::Indent),
    {
        let mut c = self;
        c.items.push(CodegenItem::Indent);
        proof {
            assert(c.shape() =~= items_shape(self.items@).push(ItemV::Indent));
        }
        c
    }

    /// Closes one level of indentation.
    pub fn stop_indent(self) -> (r: Code)
        ensures
            r.items_view() == self.items_view().push(CodegenItem::StopIndent),
            r.shape() =~= self.shape().push(ItemV::StopIndent),
    {
        let mut c = self;
        c.items.push(CodegenItem::StopIndent);
        proof {
            assert(c.shape() =~= items_shape(self.items@).push(ItemV::StopIndent));
        }
        c
    }

    /// Appends all items of another piece of code.
    pub fn merge(self, other: Code) -> (r: Code)
        ensures
            r.items_view() == self.items_view() + other.items_view(),
            r.shape() =~= self.shape() + other.shape(),
    {
        let mut c = self;
        let mut o = other;
        c.items.append(&mut o.items);
        proof {
            assert(c.shape() =~= items_shape(self.items@) + items_shape(other.items@));
        }
        c
    }

    /// Appends a vector of items.
    pub fn extend(&mut self, items: Vec<CodegenItem>)
        ensures
            final(self).items_view() == old(self).items_view() + items@,
    {
        let mut v = items;
        self.items.append(&mut v);
    }

    /// Whether rendering is safe: no prefix closes more indentation
    /// than it opened.
    pub fn is_balanced(&self) -> (r: bool)
        ensures
            r == balanced(self.items_view()),
    {
        let n = self.items.len();
        let mut depth: usize = 0;
        let mut i: usize = 0;
        while i < n
            invariant
                0 <= i <= n,
                n == self.items@.len(),
                depth == indent_depth(self.items@, i as int),
                forall|k: int| 0 <= k <= i ==> indent_depth(self.items@, k) >= 0,
            decreases n - i,
        {
            proof {
                lemma_indent_depth_bound(self.items@, i + 1);
            }
            match &self.items[i] {
                CodegenItem::Indent => {
                    depth = depth + 1;
                },
                CodegenItem::StopIndent => {
                    if depth == 0 {
                        assert(indent_depth(self.items@, i + 1) < 0);
                        return false;
                    }
                    depth = depth - 1;
                },
                CodegenItem::Line(_) => {},
            }
            i = i + 1;
        }
        true
    }

    /// Renders the accumulated code: every line with one tab per open
    /// indentation level and a trailing newline.  The items must not
    /// close more indentation than they opened.
    pub fn to_code_string(self) -> (r: String)
        requires
            balanced(self.items_view()),
        ensures
            r@ == spec_code_string(self.items_view()),
    {
        let ghost items = self.items@;
        let n = self.items.len();
        let mut out = String::new();
        let mut depth: usize = 0;
        let mut i: usize = 0;
        while i < n
            invariant
                0 <= i <= n,
                n == self.items@.len(),
                items == self.items@,
                balanced(items),
                depth == indent_depth(items, i as int),
                spec_code_string(items) =~= out@ + spec_rendered(items, i as int, depth as int),
            decreases n - i,
        {
            proof {
                lemma_indent_depth_bound(items, i + 1);
            }
            match &self.items[i] {
                CodegenItem::Indent => {
                    depth = depth + 1;
                },
                CodegenItem::StopIndent => {
                    assert(indent_depth(items, i + 1) >= 0);
                    depth = depth - 1;
                },
                CodegenItem::Line(l) => {
                    let t = make_tabs(depth);
                    out.append(t.as_str());
                    out.append(l.as_str());
                    out.append("\n");
                },
            }
            i = i + 1;
        }
        assert(spec_rendered(items, n as int, depth as int) =~= Seq::<char>::empty());
        out
    }
}

/// Builds a string of `n` tabs.
fn make_tabs(n: usize) -> (r: String)
    ensures
        r@ == spec_tabs(n as int),
{
    let mut out = String::new();
    let mut i: usize = 0;
    while i < n
        invariant
            0 <= i <= n,
            out@ == spec_tabs(i as int),
        decreases n - i,
    {
        out.append("\t");
        i = i + 1;
    }
    out
}

} // verus!
