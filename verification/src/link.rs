//! Link validator: classifies an input URL as a single-video link, a
//! playlist link, or an invalid link, and extracts the video identifier.

use vstd::prelude::*;

verus! {

/// The components of a parsed URL that the validator reads, as plain values:
/// the host (absent for URLs without one), the serialized path, the
/// slash-separated path segments (absent for cannot-be-a-base URLs), and the
/// decoded query pairs in order.
pub struct UrlParts {
    pub host: Option<String>,
    pub path: String,
    pub segments: Option<Vec<String>>,
    pub query_pairs: Vec<(String, String)>,
}

/// Ghost image of [`UrlParts`]: the same components over character sequences.
pub struct UrlPartsView {
    pub host: Option<Seq<char>>,
    pub path: Seq<char>,
    pub segments: Option<Seq<Seq<char>>>,
    pub query_pairs: Seq<(Seq<char>, Seq<char>)>,
}

impl View for UrlParts {
    type V = UrlPartsView;

    open spec fn view(&self) -> UrlPartsView {
        UrlPartsView {
            host: self.host.deep_view(),
            path: self.path@,
            segments: self.segments.deep_view(),
            query_pairs: self.query_pairs.deep_view(),
        }
    }
}

/// What `url::Url::parse` and its accessors yield for a given input text:
/// the parts depend on the text alone.
pub uninterp spec fn spec_parse_url(s: Seq<char>) -> Option<UrlPartsView>;

/// Relies on `url::Url::parse`, `Url::host_str`, `Url::path`,
/// `Url::path_segments` and `Url::query_pairs`: parsing is deterministic, and
/// each accessor is a pure reading of the parsed value.
#[verifier::external_body]
fn parse_url(link: &str) -> (r: Option<UrlParts>)
    ensures
        r matches Some(p) ==> spec_parse_url(link@) == Some(p@),
        r is None ==> spec_parse_url(link@) is None,
{
    match url::Url::parse(link) {
        Ok(u) => Some(UrlParts {
            host: u.host_str().map(|h| h.to_string()),
            path: u.path().to_string(),
            segments: u.path_segments().map(|segs| segs.map(|x| x.to_string()).collect()),
            query_pairs: u.query_pairs().map(|(k, v)| (k.to_string(), v.to_string())).collect(),
        }),
        Err(_) => None,
    }
}

/// Identifier of a single video, only ever built from a URL that passed the
/// validator.
pub struct VideoRef {
    id: String,
}

impl View for VideoRef {
    type V = Seq<char>;

    closed spec fn view(&self) -> Seq<char> {
        self.id@
    }
}

impl VideoRef {
    pub(crate) fn from_validated(id: String) -> (r: VideoRef)
        ensures
            r@ == id@,
    {
        VideoRef { id }
    }

    /// The extracted video identifier.
    pub fn id(&self) -> (r: &String)
        ensures
            r@ == self@,
    {
        &self.id
    }
}

/// Classification of an input URL.
pub enum LinkClass {
    Valid(VideoRef),
    InvalidFormat,
    IsPlaylist,
}

/// Ghost counterpart of [`LinkClass`], carrying the identifier characters.
pub enum SpecLinkClass {
    Valid(Seq<char>),
    InvalidFormat,
    IsPlaylist,
}

/// Whether some query pair has key `k`.
pub open spec fn sp_has_key(q: Seq<(Seq<char>, Seq<char>)>, k: Seq<char>) -> bool {
    exists|i: int| 0 <= i < q.len() && #[trigger] q[i].0 == k
}

/// The value of the first query pair with key `k`.
pub open spec fn sp_first_value(q: Seq<(Seq<char>, Seq<char>)>, k: Seq<char>) -> Seq<char>
    decreases q.len(),
{
    if q.len() == 0 {
        Seq::empty()
    } else if q[0].0 == k {
        q[0].1
    } else {
        sp_first_value(q.drop_first(), k)
    }
}

/// A playlist indicator: the URL carries a `list` query key.
pub open spec fn sp_is_playlist(p: UrlPartsView) -> bool {
    sp_has_key(p.query_pairs, "list"@)
}

/// The watch shape: path `/watch` with a `v` query key carrying the id.
pub open spec fn sp_watch_shape(p: UrlPartsView) -> bool {
    p.path == "/watch"@ && sp_has_key(p.query_pairs, "v"@)
}

/// The shortlink shape: exactly one path segment, which is the id.
pub open spec fn sp_short_shape(p: UrlPartsView) -> bool {
    p.segments matches Some(s) && s.len() == 1
}

/// Classification of parsed URL parts: a playlist indicator wins over an
/// otherwise valid shape; then either accepted shape yields the identifier.
pub open spec fn sp_classify(p: UrlPartsView) -> SpecLinkClass {
    if sp_is_playlist(p) {
        SpecLinkClass::IsPlaylist
    } else if sp_watch_shape(p) {
        SpecLinkClass::Valid(sp_first_value(p.query_pairs, "v"@))
    } else if sp_short_shape(p) {
        SpecLinkClass::Valid(p.segments->0[0])
    } else {
        SpecLinkClass::InvalidFormat
    }
}

/// Whether an executable classification agrees with the ghost one.
pub open spec fn class_matches(r: LinkClass, s: SpecLinkClass) -> bool {
    match (r, s) {
        (LinkClass::Valid(v), SpecLinkClass::Valid(id)) => v@ == id,
        (LinkClass::InvalidFormat, SpecLinkClass::InvalidFormat) => true,
        (LinkClass::IsPlaylist, SpecLinkClass::IsPlaylist) => true,
        _ => false,
    }
}

/// Whether some query pair of `pairs` has key `key`.
fn has_query_key(pairs: &Vec<(String, String)>, key: &str) -> (r: bool)
    ensures
        r == sp_has_key(pairs.deep_view(), key@),
{
    let n = pairs.len();
    let mut i: usize = 0;
    while i < n
        invariant
            n == pairs.len(),
            i <= n,
            pairs.deep_view().len() == n,
            forall|j: int| 0 <= j < i ==> #[trigger] pairs.deep_view()[j].0 != key@,
        decreases n - i,
    {
        assert(pairs.deep_view()[i as int].0 == pairs[i as int].0@);
        if crate::strutil::str_eq(pairs[i].0.as_str(), key) {
            return true;
        }
        i = i + 1;
    }
    false
}

/// The value of the first query pair of `pairs` with key `key`, if any.
fn first_query_value(pairs: &Vec<(String, String)>, key: &str) -> (r: Option<String>)
    ensures
        r matches Some(v) ==> sp_has_key(pairs.deep_view(), key@)
            && v@ == sp_first_value(pairs.deep_view(), key@),
        r is None ==> !sp_has_key(pairs.deep_view(), key@),
{
    let n = pairs.len();
    let mut i: usize = 0;
    proof {
        assert(pairs.deep_view().skip(0) =~= pairs.deep_view());
    }
    while i < n
        invariant
            n == pairs.len(),
            i <= n,
            pairs.deep_view().len() == n,
            forall|j: int| 0 <= j < i ==> #[trigger] pairs.deep_view()[j].0 != key@,
            sp_first_value(pairs.deep_view(), key@)
                == sp_first_value(pairs.deep_view().skip(i as int), key@),
        decreases n - i,
    {
        assert(pairs.deep_view()[i as int].0 == pairs[i as int].0@);
        if crate::strutil::str_eq(pairs[i].0.as_str(), key) {
            proof {
                assert(pairs.deep_view().skip(i as int)[0] == pairs.deep_view()[i as int]);
            }
            return Some(pairs[i].1.clone());
        }
        proof {
            assert(pairs.deep_view().skip(i as int).drop_first()
                =~= pairs.deep_view().skip(i as int + 1));
        }
        i = i + 1;
    }
    proof {
        if sp_has_key(pairs.deep_view(), key@) {
            let j = choose|j: int| 0 <= j < pairs.deep_view().len()
                && #[trigger] pairs.deep_view()[j].0 == key@;
            assert(pairs.deep_view()[j].0 != key@);
        }
    }
    None
}

/// Classifies already-parsed URL parts.
pub fn classify_parts(parts: &UrlParts) -> (r: LinkClass)
    ensures
        class_matches(r, sp_classify(parts@)),
{
    if has_query_key(&parts.query_pairs, "list") {
        return LinkClass::IsPlaylist;
    }
    if crate::strutil::str_eq(parts.path.as_str(), "/watch") {
        if let Some(id) = first_query_value(&parts.query_pairs, "v") {
            return LinkClass::Valid(VideoRef::from_validated(id));
        }
    }
    match &parts.segments {
        Some(segs) => {
            if segs.len() == 1 {
                proof {
                    assert(parts@.segments->0[0] == segs[0]@);
                }
                LinkClass::Valid(VideoRef::from_validated(segs[0].clone()))
            } else {
                LinkClass::InvalidFormat
            }
        },
        None => LinkClass::InvalidFormat,
    }
}

/// Classifies an input URL: a URL that does not parse is invalid; a parsed
/// one is classified by [`sp_classify`].
pub fn validate(link: &str) -> (r: LinkClass)
    ensures
        spec_parse_url(link@) matches Some(p) ==> class_matches(r, sp_classify(p)),
        spec_parse_url(link@) is None ==> r is InvalidFormat,
{
    match parse_url(link) {
        Some(parts) => classify_parts(&parts),
        None => LinkClass::InvalidFormat,
    }
}

/// Whether the link is a valid single-video link: it parses and classifies
/// as `Valid`.
pub fn is_valid_link(link: &str) -> (r: bool)
    ensures
        r == (spec_parse_url(link@) matches Some(p) && sp_classify(p) is Valid),
{
    match validate(link) {
        LinkClass::Valid(_) => true,
        LinkClass::InvalidFormat => false,
        LinkClass::IsPlaylist => false,
    }
}

/// Law: every URL of the shortlink shape — exactly one path segment — with
/// no playlist query key classifies as a valid single-video link.
pub proof fn lemma_shortlink_is_valid(p: UrlPartsView)
    requires
        sp_short_shape(p),
        !sp_is_playlist(p),
    ensures
        sp_classify(p) is Valid,
{
}

/// Law: every URL carrying a playlist query key classifies as a playlist,
/// whatever its other components hold.
pub proof fn lemma_playlist_key_wins(p: UrlPartsView)
    requires
        sp_is_playlist(p),
    ensures
        sp_classify(p) == SpecLinkClass::IsPlaylist,
{
}

} // verus!
