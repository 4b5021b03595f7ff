//! The parsed shape of an HTML page, as far as the pointer cascade needs it:
//! every element in document order, with its tag name and attributes.
//!
//! Parsing itself is the scraper crate's work, reached through one trusted
//! wrapper; the cascade over the elements is verified code.
use vstd::prelude::*;

verus! {

/// One HTML element: its tag name and its attributes, in document order.
#[derive(Debug, Clone, PartialEq, Eq)]
pub struct HtmlTag {
    /// The tag name, lower-cased by the parser.
    pub name: String,
    /// The attributes, each a name and a value.
    pub attrs: Vec<(String, String)>,
}

/// The mathematical shape of an [`HtmlTag`].
pub struct TagV {
    pub name: Seq<char>,
    pub attrs: Seq<(Seq<char>, Seq<char>)>,
}

impl View for HtmlTag {
    type V = TagV;

    open spec fn view(&self) -> TagV {
        TagV {
            name: self.name@,
            attrs: Seq::new(self.attrs@.len(), |i: int| (self.attrs@[i].0@, self.attrs@[i].1@)),
        }
    }
}

impl DeepView for HtmlTag {
    type V = TagV;

    open spec fn deep_view(&self) -> TagV {
        self.view()
    }
}

/// The elements of a text parsed as an HTML document, in document order:
/// what the scraper crate's parser builds depends on the text alone.
pub uninterp spec fn spec_html_tags(s: Seq<char>) -> Seq<TagV>;

/// Relies on `scraper::Html::parse_document`: parses a page and hands every
/// element out in document order as plain tag names and attributes.
#[verifier::external_body]
pub(crate) fn html_tags(html: &str) -> (r: Vec<HtmlTag>)
    ensures
        r.deep_view() == spec_html_tags(html@),
{
    let doc = scraper::Html::parse_document(html);
    doc.tree.root().descendants().filter_map(|n| match n.value() {
        scraper::Node::Element(e) => Some(HtmlTag {
            name: e.name().to_string(),
            attrs: e.attrs().map(|(k, v)| (k.to_string(), v.to_string())).collect(),
        }),
        _ => None,
    }).collect()
}

/// The value of the first attribute named `key`, or `None`.
pub open spec fn attr_of(attrs: Seq<(Seq<char>, Seq<char>)>, key: Seq<char>) -> Option<Seq<char>>
    decreases attrs.len(),
{
    if attrs.len() == 0 {
        None
    } else if attrs[0].0 == key {
        Some(attrs[0].1)
    } else {
        attr_of(attrs.drop_first(), key)
    }
}

/// `attr_of` ignores a prefix free of `key`.
pub proof fn lemma_attr_of_skip(attrs: Seq<(Seq<char>, Seq<char>)>, key: Seq<char>, i: int)
    requires
        0 <= i <= attrs.len(),
        forall|k: int| 0 <= k < i ==> attrs[k].0 != key,
    ensures
        attr_of(attrs, key) == attr_of(attrs.skip(i), key),
    decreases i,
{
    if i > 0 {
        assert(attrs[0].0 != key);
        assert(attrs.drop_first().skip(i - 1) =~= attrs.skip(i));
        lemma_attr_of_skip(attrs.drop_first(), key, i - 1);
    } else {
        assert(attrs.skip(0) =~= attrs);
    }
}

impl HtmlTag {
    /// The value of this element's first attribute named `key`.
    pub fn attr<'a>(&'a self, key: &str) -> (r: Option<&'a String>)
        ensures
            match r {
                Some(v) => attr_of(self@.attrs, key@) == Some(v@),
                None => attr_of(self@.attrs, key@) is None,
            },
    {
        let n = self.attrs.len();
        let mut i: usize = 0;
        while i < n
            invariant
                n == self.attrs.len(),
                self@.attrs.len() == n,
                forall|k: int|
                    0 <= k < n ==> self@.attrs[k] == (self.attrs@[k].0@, self.attrs@[k].1@),
                0 <= i <= n,
                forall|k: int| 0 <= k < i ==> self@.attrs[k].0 != key@,
            decreases n - i,
        {
            if crate::chars::eq_str(self.attrs[i].0.as_str(), key) {
                proof {
                    lemma_attr_of_skip(self@.attrs, key@, i as int);
                    assert(self@.attrs.skip(i as int)[0] == self@.attrs[i as int]);
                }
                return Some(&self.attrs[i].1);
            }
            i += 1;
        }
        proof {
            lemma_attr_of_skip(self@.attrs, key@, n as int);
            assert(self@.attrs.skip(n as int) =~= Seq::<(Seq<char>, Seq<char>)>::empty());
        }
        None
    }
}

} // verus!
