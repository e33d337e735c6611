//! XML documents, read with the `xmltree` crate.

use vstd::prelude::*;

verus! {

/// An element of an XML document, as far as this library reads one.
pub struct XmlTree {
    /// The element's name, without any namespace.
    pub name: Seq<char>,
    /// The element's text and character data, joined in document order; `None`
    /// where the element holds neither.
    pub text: Option<Seq<char>>,
    /// The child elements in document order.
    pub children: Seq<XmlTree>,
}

#[verifier::external_type_specification]
#[verifier::external_body]
pub struct ExElement(xmltree::Element);

#[verifier::external_type_specification]
#[verifier::external_body]
pub struct ExParseError(xmltree::ParseError);

/// The longest document that is handed to the parser, in bytes. The parser
/// calls itself once for each level of nesting. In a plain document, see
/// [`plain_document`], a level takes three bytes at the least, so the bound
/// keeps a parse within the stack of any thread.
pub const MAX_DOCUMENT_LEN: usize = 1024;

/// The bytes of `<!DOCTYPE`, with which a document type declaration starts.
pub open spec fn doctype_start() -> Seq<u8> {
    seq![0x3cu8, 0x21u8, 0x44u8, 0x4fu8, 0x43u8, 0x54u8, 0x59u8, 0x50u8, 0x45u8]
}

/// Whether the bytes of `<!DOCTYPE` stand at a place in a document.
pub open spec fn doctype_starts_at(document: Seq<u8>, at: int) -> bool {
    0 <= at && at + 9 <= document.len() && document.subrange(at, at + 9) == doctype_start()
}

/// Whether a document is one that the parser is trusted with: no longer than
/// [`MAX_DOCUMENT_LEN`], without a zero byte, and without the bytes of
/// `<!DOCTYPE` anywhere.
///
/// A document type declaration can declare entities that stand for markup,
/// and the parser reads that markup again wherever an entity is named, so that
/// a short document could nest as deep as it likes. The parser knows such a
/// declaration by the characters `<!DOCTYPE`. In the encodings of one byte for
/// each of these characters, they are these nine bytes. In UTF-16, the one
/// other encoding that the parser reads, they hold a zero byte each, as every
/// character of markup does.
pub open spec fn plain_document(document: Seq<u8>) -> bool {
    &&& document.len() <= MAX_DOCUMENT_LEN
    &&& forall|i: int| 0 <= i < document.len() ==> #[trigger] document[i] != 0
    &&& forall|at: int| !#[trigger] doctype_starts_at(document, at)
}

/// The root element of a document, or `None` where `xmltree` does not accept
/// the bytes as a document.
pub uninterp spec fn document_tree(document: Seq<u8>) -> Option<XmlTree>;

/// What an element holds.
pub uninterp spec fn element_tree(element: xmltree::Element) -> XmlTree;

/// The position of the first element of that name, if there is one.
pub open spec fn first_named(elements: Seq<XmlTree>, name: Seq<char>) -> Option<int>
    decreases elements.len(),
{
    if elements.len() == 0 {
        None
    } else if elements[0].name == name {
        Some(0)
    } else {
        match first_named(elements.drop_first(), name) {
            Some(i) => Some(i + 1),
            None => None,
        }
    }
}

/// The text of the first child element of that name: `None` where there is no
/// such child or where that child has no text.
pub open spec fn child_text(tree: XmlTree, name: Seq<char>) -> Option<Seq<char>> {
    match first_named(tree.children, name) {
        Some(i) => tree.children[i].text,
        None => None,
    }
}

/// Tells whether the bytes of `<!DOCTYPE` stand at a place in a document.
fn doctype_starts(document: &[u8], at: usize) -> (starts: bool)
    requires
        at <= document@.len(),
    ensures
        starts == doctype_starts_at(document@, at as int),
{
    if document.len() - at < 9 {
        return false;
    }
    let starts = document[at] == 0x3c && document[at + 1] == 0x21 && document[at + 2] == 0x44
        && document[at + 3] == 0x4f && document[at + 4] == 0x43 && document[at + 5] == 0x54
        && document[at + 6] == 0x59 && document[at + 7] == 0x50 && document[at + 8] == 0x45;
    proof {
        let part = document@.subrange(at as int, at + 9);
        assert forall|j: int| 0 <= j < 9 implies part[j] == document@[at + j] by {}
        if starts {
            assert(part =~= doctype_start());
        } else if part == doctype_start() {
            assert(part[0] == 0x3c && part[1] == 0x21 && part[2] == 0x44 && part[3] == 0x4f);
            assert(part[4] == 0x43 && part[5] == 0x54 && part[6] == 0x59 && part[7] == 0x50);
            assert(part[8] == 0x45);
        }
    }
    starts
}

/// Tells whether a document is one that the parser is trusted with.
pub fn is_plain_document(document: &[u8]) -> (plain: bool)
    ensures
        plain == plain_document(document@),
{
    if document.len() > MAX_DOCUMENT_LEN {
        return false;
    }
    let mut i: usize = 0;
    while i < document.len()
        invariant
            i <= document@.len(),
            forall|k: int| 0 <= k < i ==> #[trigger] document@[k] != 0,
            forall|at: int| 0 <= at < i ==> !#[trigger] doctype_starts_at(document@, at),
        decreases document@.len() - i,
    {
        if document[i] == 0 {
            return false;
        }
        if doctype_starts(document, i) {
            return false;
        }
        i += 1;
    }
    true
}

/// Calls `xmltree::Element::parse`. The contract names what the root element
/// holds as a function of the bytes, and says that the call fails exactly on
/// the bytes for which there is no such element. The crate builds the tree by
/// recursion, one call for each level of nesting, and sets no limit to it. The
/// contract is made of plain documents only, see [`plain_document`]: in those
/// no entity stands for markup, a level of nesting takes three bytes, and the
/// length bounds the nesting.
#[verifier::external_body]
pub(crate) fn parse_document(document: &[u8]) -> (parsed: Result<
    xmltree::Element,
    xmltree::ParseError,
>)
    requires
        plain_document(document@),
    ensures
        match parsed {
            Ok(root) => document_tree(document@) == Some(element_tree(root)),
            Err(_) => document_tree(document@) is None,
        },
{
    xmltree::Element::parse(document)
}

/// Calls `xmltree::Element::get_child` with a name. The contract claims what
/// the crate documents: the first child element of that name comes back, and
/// `None` where no child element has it.
#[verifier::external_body]
pub(crate) fn get_child<'a>(parent: &'a xmltree::Element, name: &str) -> (child: Option<
    &'a xmltree::Element,
>)
    ensures
        match child {
            Some(found) => {
                &&& first_named(element_tree(*parent).children, name@) matches Some(i)
                &&& element_tree(*found) == element_tree(*parent).children[i]
            },
            None => first_named(element_tree(*parent).children, name@) is None,
        },
{
    parent.get_child(name)
}

/// Calls `xmltree::Element::get_text`. The contract claims that the text that
/// comes back is the element's text.
#[verifier::external_body]
pub(crate) fn get_text(element: &xmltree::Element) -> (text: Option<String>)
    ensures
        match text {
            Some(found) => element_tree(*element).text == Some(found@),
            None => element_tree(*element).text is None,
        },
{
    element.get_text().map(|text| text.into_owned())
}

/// Reads the text of the first child element of that name.
pub(crate) fn field_text(root: &xmltree::Element, name: &str) -> (text: Option<String>)
    ensures
        match text {
            Some(found) => child_text(element_tree(*root), name@) == Some(found@),
            None => child_text(element_tree(*root), name@) is None,
        },
{
    match get_child(root, name) {
        Some(child) => get_text(child),
        None => None,
    }
}

} // verus!
