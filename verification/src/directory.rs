//! The feed directory: the flat list of feed addresses that a nested
//! subscription list holds.

use crate::article::text_view;
use crate::config::ConfigurationError;
use vstd::prelude::*;

verus! {

/// One entry of a subscription list: a feed when it carries an address,
/// a grouping when it does not, and in both cases a parent of further entries.
#[derive(Debug, PartialEq, Eq)]
pub struct Entry {
    pub xml_url: Option<String>,
    pub outlines: Vec<Entry>,
}

/// The mathematical model of an [`Entry`].
pub struct EntryView {
    pub xml_url: Option<Seq<char>>,
    pub outlines: Seq<EntryView>,
}

impl View for Entry {
    type V = EntryView;

    open spec fn view(&self) -> EntryView {
        entry_view(*self)
    }
}

/// The model of one entry: its address as text, and the models of its children.
pub open spec fn entry_view(entry: Entry) -> EntryView
    decreases entry, 0int,
{
    EntryView {
        xml_url: text_view(entry.xml_url),
        outlines: forest_view(entry.outlines@),
    }
}

/// The model of a run of entries, entry by entry.
pub open spec fn forest_view(outlines: Seq<Entry>) -> Seq<EntryView>
    decreases outlines, 1int,
{
    if outlines.len() == 0 {
        Seq::empty()
    } else {
        forest_view(outlines.drop_last()).push(entry_view(outlines.last()))
    }
}

/// `forest_view` keeps the length and models each entry in its place.
pub proof fn lemma_forest_view(outlines: Seq<Entry>)
    ensures
        forest_view(outlines).len() == outlines.len(),
        forall|k: int| 0 <= k < outlines.len() ==> forest_view(outlines)[k] == (#[trigger] outlines[k])@,
    decreases outlines.len(),
{
    if outlines.len() > 0 {
        let front = outlines.drop_last();
        lemma_forest_view(front);
        assert forall|k: int| 0 <= k < outlines.len() implies forest_view(outlines)[k] == (
        #[trigger] outlines[k])@ by {
            if k < front.len() {
                assert(front[k] == outlines[k]);
            }
        }
    }
}

/// The address that an entry carries itself, as a sequence of none or one.
pub open spec fn own_url(entry: EntryView) -> Seq<Seq<char>> {
    match entry.xml_url {
        Some(address) => seq![address],
        None => Seq::empty(),
    }
}

/// The addresses under one entry: its own first, then those of its children.
pub open spec fn entry_urls(entry: EntryView) -> Seq<Seq<char>>
    decreases entry, 0int,
{
    own_url(entry) + feed_urls(entry.outlines)
}

/// The addresses that a run of entries holds, in document order.
pub open spec fn feed_urls(outlines: Seq<EntryView>) -> Seq<Seq<char>>
    decreases outlines, 1int,
{
    if outlines.len() == 0 {
        Seq::empty()
    } else {
        feed_urls(outlines.drop_last()) + entry_urls(outlines.last())
    }
}

/// Appends to `rss_urls` every feed address found in `outlines` or anywhere
/// below them, in document order. Entries without an address add nothing of
/// their own; addresses that occur twice are added twice.
pub fn extract_urls_from_outline(outlines: &[Entry], rss_urls: &mut Vec<String>)
    ensures
        final(rss_urls).deep_view() == old(rss_urls).deep_view() + feed_urls(
            forest_view(outlines@),
        ),
    decreases outlines@,
{
    let ghost forest = forest_view(outlines@);
    let mut i: usize = 0;
    while i < outlines.len()
        invariant
            i <= outlines@.len(),
            forest == forest_view(outlines@),
            rss_urls.deep_view() == old(rss_urls).deep_view() + feed_urls(forest.take(i as int)),
        decreases outlines@.len() - i,
    {
        let outline = &outlines[i];
        proof {
            lemma_forest_view(outlines@);
        }
        let ghost before = rss_urls.deep_view();
        if let Some(xml_url) = &outline.xml_url {
            rss_urls.push(xml_url.clone());
        }
        assert(rss_urls.deep_view() == before + own_url(outline@));
        let ghost own = rss_urls.deep_view();
        if !outline.outlines.is_empty() {
            extract_urls_from_outline(outline.outlines.as_slice(), rss_urls);
        }
        proof {
            assert(rss_urls.deep_view() == own + feed_urls(outline@.outlines));
            assert(forest.take(i + 1).drop_last() == forest.take(i as int));
            assert(forest.take(i + 1).last() == outline@);
            assert(feed_urls(forest.take(i + 1)) == feed_urls(forest.take(i as int)) + entry_urls(
                outline@,
            ));
            assert(entry_urls(outline@) == own_url(outline@) + feed_urls(outline@.outlines));
            assert(rss_urls.deep_view() == before + own_url(outline@) + feed_urls(
                outline@.outlines,
            ));
        }
        i = i + 1;
    }
    proof {
        lemma_forest_view(outlines@);
        assert(forest.take(i as int) == forest);
    }
}

#[verifier::external_type_specification]
#[verifier::external_body]
pub struct ExOpmlError(opml::Error);

#[verifier::external_type_specification]
#[verifier::external_body]
pub struct ExOpmlOutline(opml::Outline);

/// What an entry parsed by the `opml` crate holds: the text of its `xml_url`
/// attribute, if it has one, and what its child entries hold, in their order.
pub uninterp spec fn outline_model(parsed: opml::Outline) -> EntryView;

/// The top-level entries that `opml::OPML::from_str` reads out of a document,
/// or `None` where it rejects the document.
pub uninterp spec fn parsed_outlines(content: Seq<char>) -> Option<Seq<EntryView>>;

/// What a run of parsed entries holds, entry by entry.
pub open spec fn outline_models(parsed: Seq<opml::Outline>) -> Seq<EntryView> {
    Seq::new(parsed.len(), |i: int| outline_model(parsed[i]))
}

/// Calls `opml::OPML::from_str` on the document and hands back the entries of
/// its body, as parsed. The contract only names the outcome: it is
/// `parsed_outlines` of the document's text, an error standing for `None`.
#[verifier::external_body]
fn parse_document(content: &str) -> (parsed: Result<Vec<opml::Outline>, opml::Error>)
    ensures
        match parsed {
            Ok(outlines) => parsed_outlines(content@) == Some(outline_models(outlines@)),
            Err(_) => parsed_outlines(content@) is None,
        },
{
    opml::OPML::from_str(content).map(|document| document.body.outlines)
}

/// Reads the field `xml_url` of an `opml::Outline`: a copy of the address
/// that the entry carries.
#[verifier::external_body]
fn outline_address(parsed: &opml::Outline) -> (address: Option<String>)
    ensures
        text_view(address) == outline_model(*parsed).xml_url,
{
    parsed.xml_url.clone()
}

/// Reads the field `outlines` of an `opml::Outline`: the child entries, in
/// their order.
#[verifier::external_body]
fn outline_children(parsed: &opml::Outline) -> (children: &Vec<opml::Outline>)
    ensures
        outline_models(children@) == outline_model(*parsed).outlines,
{
    &parsed.outlines
}

/// Copies one parsed entry, with everything below it, into an [`Entry`].
fn entry_from(parsed: &opml::Outline) -> (entry: Entry)
    ensures
        entry@ == outline_model(*parsed),
    decreases outline_model(*parsed), 0int,
{
    let xml_url = outline_address(parsed);
    let outlines = entries_from(outline_children(parsed));
    Entry { xml_url, outlines }
}

/// Copies a run of parsed entries, each with everything below it.
fn entries_from(parsed: &Vec<opml::Outline>) -> (entries: Vec<Entry>)
    ensures
        forest_view(entries@) == outline_models(parsed@),
    decreases outline_models(parsed@), 1int,
{
    let mut entries: Vec<Entry> = Vec::new();
    let mut i: usize = 0;
    while i < parsed.len()
        invariant
            i <= parsed@.len(),
            entries@.len() == i,
            forall|k: int| 0 <= k < i ==> (#[trigger] entries@[k])@ == outline_model(parsed@[k]),
        decreases parsed@.len() - i,
    {
        assert(outline_models(parsed@)[i as int] == outline_model(parsed@[i as int]));
        let entry = entry_from(&parsed[i]);
        entries.push(entry);
        i = i + 1;
    }
    proof {
        lemma_forest_view(entries@);
        assert forall|k: int| 0 <= k < parsed@.len() implies forest_view(entries@)[k]
            == outline_models(parsed@)[k] by {
            assert(entries@[k]@ == outline_model(parsed@[k]));
        }
        assert(forest_view(entries@) =~= outline_models(parsed@));
    }
    entries
}

/// What loading a subscription list yields, given what parsing it yields.
pub open spec fn load_outcome(parsed: Option<Seq<EntryView>>) -> Result<
    Seq<Seq<char>>,
    ConfigurationError,
> {
    match parsed {
        Some(outlines) => Ok(feed_urls(outlines)),
        None => Err(ConfigurationError::MalformedSubscriptions),
    }
}

/// Resolves the text of a subscription list into the flat list of its feed
/// addresses. A list without any address gives an empty directory; a document
/// that cannot be parsed gives an error.
pub fn load_rss_urls_from_opml(opml_content: &str) -> (loaded: Result<
    Vec<String>,
    ConfigurationError,
>)
    ensures
        match loaded {
            Ok(rss_urls) => load_outcome(parsed_outlines(opml_content@)) == Ok::<
                Seq<Seq<char>>,
                ConfigurationError,
            >(rss_urls.deep_view()),
            Err(error) => load_outcome(parsed_outlines(opml_content@)) == Err::<
                Seq<Seq<char>>,
                ConfigurationError,
            >(error),
        },
{
    match parse_document(opml_content) {
        Ok(parsed) => {
            let outlines = entries_from(&parsed);
            let mut rss_urls: Vec<String> = Vec::new();
            extract_urls_from_outline(outlines.as_slice(), &mut rss_urls);
            assert(rss_urls.deep_view() == feed_urls(forest_view(outlines@)));
            Ok(rss_urls)
        },
        Err(_) => Err(ConfigurationError::MalformedSubscriptions),
    }
}

/// The entry that `path` leads to: the first index picks a top-level entry,
/// each further index a child of the entry reached so far. `None` where the
/// path is empty or leaves the tree.
pub open spec fn entry_at(outlines: Seq<EntryView>, path: Seq<int>) -> Option<EntryView>
    decreases path.len(),
{
    if path.len() == 0 || !(0 <= path[0] < outlines.len()) {
        None
    } else if path.len() == 1 {
        Some(outlines[path[0]])
    } else {
        entry_at(outlines[path[0]].outlines, path.skip(1))
    }
}

/// Whether some entry of the tree, at whatever depth, carries `address`.
pub open spec fn carries(outlines: Seq<EntryView>, address: Seq<char>) -> bool {
    exists|path: Seq<int>|
        (#[trigger] entry_at(outlines, path)) matches Some(entry) && entry.xml_url == Some(address)
}

proof fn lemma_contains_add<A>(a: Seq<A>, b: Seq<A>, x: A)
    ensures
        (a + b).contains(x) <==> a.contains(x) || b.contains(x),
{
    if a.contains(x) {
        let i = choose|i: int| 0 <= i < a.len() && a[i] == x;
        assert((a + b)[i] == x);
    }
    if b.contains(x) {
        let i = choose|i: int| 0 <= i < b.len() && b[i] == x;
        assert((a + b)[a.len() + i] == x);
    }
    if (a + b).contains(x) {
        let i = choose|i: int| 0 <= i < (a + b).len() && (a + b)[i] == x;
        if i < a.len() {
            assert(a[i] == x);
        } else {
            assert(b[i - a.len()] == x);
        }
    }
}

proof fn lemma_entry_urls_are_listed(outlines: Seq<EntryView>, i: int, address: Seq<char>)
    requires
        0 <= i < outlines.len(),
        entry_urls(outlines[i]).contains(address),
    ensures
        feed_urls(outlines).contains(address),
    decreases outlines.len(),
{
    let front = outlines.drop_last();
    lemma_contains_add(feed_urls(front), entry_urls(outlines.last()), address);
    if i < outlines.len() - 1 {
        assert(front[i] == outlines[i]);
        lemma_entry_urls_are_listed(front, i, address);
    }
}

proof fn lemma_carried_is_listed(outlines: Seq<EntryView>, path: Seq<int>, address: Seq<char>)
    requires
        entry_at(outlines, path) matches Some(entry) && entry.xml_url == Some(address),
    ensures
        feed_urls(outlines).contains(address),
    decreases path.len(),
{
    let entry = outlines[path[0]];
    lemma_contains_add(own_url(entry), feed_urls(entry.outlines), address);
    if path.len() == 1 {
        assert(own_url(entry)[0] == address);
    } else {
        lemma_carried_is_listed(entry.outlines, path.skip(1), address);
    }
    lemma_entry_urls_are_listed(outlines, path[0], address);
}

proof fn lemma_listed_is_carried(outlines: Seq<EntryView>, address: Seq<char>) -> (path: Seq<int>)
    requires
        feed_urls(outlines).contains(address),
    ensures
        entry_at(outlines, path) matches Some(entry) && entry.xml_url == Some(address),
    decreases outlines,
{
    let front = outlines.drop_last();
    let last = outlines.last();
    let at_last = outlines.len() - 1;
    lemma_contains_add(feed_urls(front), entry_urls(last), address);
    lemma_contains_add(own_url(last), feed_urls(last.outlines), address);
    if feed_urls(front).contains(address) {
        let path = lemma_listed_is_carried(front, address);
        assert(front[path[0]] == outlines[path[0]]);
        path
    } else if own_url(last).contains(address) {
        let path = seq![at_last];
        assert(entry_at(outlines, path) == Some(last));
        path
    } else {
        let below = lemma_listed_is_carried(last.outlines, address);
        let path = seq![at_last] + below;
        assert(path.skip(1) == below);
        path
    }
}

/// The directory holds exactly the addresses that the tree carries: an
/// address is listed if and only if some entry, at whatever depth, carries
/// it. Entries without an address contribute nothing.
pub proof fn law_directory_lists_what_the_tree_carries(
    outlines: Seq<EntryView>,
    address: Seq<char>,
)
    ensures
        feed_urls(outlines).contains(address) <==> carries(outlines, address),
{
    if feed_urls(outlines).contains(address) {
        let path = lemma_listed_is_carried(outlines, address);
        assert(entry_at(outlines, path) is Some);
    }
    if carries(outlines, address) {
        let path = choose|path: Seq<int>|
            (#[trigger] entry_at(outlines, path)) matches Some(entry) && entry.xml_url == Some(
                address,
            );
        lemma_carried_is_listed(outlines, path, address);
    }
}

} // verus!
