//! Cookie-based session storage. [`CookieSessionStore`] keeps the encrypted
//! session in browser cookies, chunked (`.0`, `.1`, …) to stay within browser
//! size limits.

use http::HeaderMap;
use std::collections::HashMap;
use vstd::prelude::*;
use vstd::utf8::encode_utf8;

use crate::codec::{
    base64_len, base64url, base64url_bytes, decode_base64url, encode_base64url, pair_texts,
};
use crate::completed_login::CompletedLogin;
use crate::config::RoutePath;
use crate::cookie::{
    all_url_safe, clear_cookie, clear_cookie_text, cookie_pairs, default_cookie_max_age,
    default_sealer, get_kid_cookie, kid_name,
    lemma_decimal_is_header_text, lemma_header_text_joins, lemma_sealer_texts,
    lemma_set_cookie_is_header_text, lemma_url_safe_is_header_text, pair_in, request_cookies,
    request_kid, set_cookie, set_cookie_text, unsealed, CookieName, CookieSealer, SealerView,
};
use crate::headers::{is_header_text, is_header_value};
use crate::metrics::{Counter, DecryptResult};
use crate::session::{
    error_caused_by, stamped, Sealed, SessionDriver, SessionError, SessionErrorKind,
};
use crate::session_state::{Session, SessionState};
use crate::text::{
    after_prefix, chars_of, decimal, index_in, lemma_index_reads_back, opt_str, opt_text,
    parse_index, split_once, string_of, strip_prefix, texts, to_decimal, trim, trimmed,
};
use crate::time::{Duration, Timestamp};

verus! {

broadcast use vstd::std_specs::hash::group_hash_axioms;

/// The characters of sealed session that one chunk cookie holds.
pub const CHUNK_SIZE: usize = 3800;

/// Default chunk budget for a saved session: two chunks, sized against common
/// request-header limits.
pub const DEFAULT_MAX_CHUNKS: usize = 2;

// -- Chunks --

/// The pieces of `s`, each of [`CHUNK_SIZE`] characters but the last, which
/// may be shorter.
pub open spec fn chunks_of(s: Seq<char>) -> Seq<Seq<char>>
    decreases s.len(),
{
    if s.len() == 0 {
        Seq::empty()
    } else if s.len() <= CHUNK_SIZE {
        seq![s]
    } else {
        seq![s.take(CHUNK_SIZE as int)] + chunks_of(s.skip(CHUNK_SIZE as int))
    }
}

/// The texts one after the other.
pub open spec fn concat(parts: Seq<Seq<char>>) -> Seq<char>
    decreases parts.len(),
{
    if parts.len() == 0 {
        Seq::empty()
    } else {
        concat(parts.drop_last()) + parts.last()
    }
}

proof fn lemma_concat_front(first: Seq<char>, rest: Seq<Seq<char>>)
    ensures
        concat(seq![first] + rest) == first + concat(rest),
    decreases rest.len(),
{
    if rest.len() == 0 {
        assert(seq![first] + rest =~= seq![first]);
        assert(seq![first].drop_last() =~= Seq::<Seq<char>>::empty());
        assert(concat(seq![first].drop_last()) =~= Seq::<char>::empty());
        assert(first + concat(rest) =~= first);
        assert(concat(seq![first]) =~= first);
    } else {
        lemma_concat_front(first, rest.drop_last());
        assert((seq![first] + rest).drop_last() =~= seq![first] + rest.drop_last());
        assert((seq![first] + rest).last() == rest.last());
        assert(first + concat(rest.drop_last()) + rest.last() =~= first + (concat(rest.drop_last())
            + rest.last()));
    }
}

/// Chunks lose nothing: put together again, they are the text. None is empty
/// or over the chunk size, and there are as many as the size requires.
pub proof fn law_chunks_reassemble(s: Seq<char>)
    ensures
        concat(chunks_of(s)) == s,
        forall|i: int|
            0 <= i < chunks_of(s).len() ==> 0 < (#[trigger] chunks_of(s)[i]).len() <= CHUNK_SIZE,
        chunks_of(s).len() == (s.len() + CHUNK_SIZE - 1) / CHUNK_SIZE as int,
    decreases s.len(),
{
    if s.len() == 0 {
    } else if s.len() <= CHUNK_SIZE {
        assert(seq![s].drop_last() =~= Seq::<Seq<char>>::empty());
        assert(concat(seq![s].drop_last()) =~= Seq::<char>::empty());
        assert(concat(seq![s]) =~= s);
    } else {
        let first = s.take(CHUNK_SIZE as int);
        let rest = s.skip(CHUNK_SIZE as int);
        law_chunks_reassemble(rest);
        lemma_concat_front(first, chunks_of(rest));
        assert(first + rest =~= s);
        assert forall|i: int| 0 <= i < chunks_of(s).len() implies 0 < (#[trigger] chunks_of(
            s,
        )[i]).len() <= CHUNK_SIZE by {
            if i > 0 {
                assert(chunks_of(s)[i] == chunks_of(rest)[i - 1]);
            }
        }
    }
}

proof fn lemma_chunks_keep_chars(s: Seq<char>)
    requires
        all_url_safe(s),
    ensures
        forall|i: int| 0 <= i < chunks_of(s).len() ==> all_url_safe(#[trigger] chunks_of(s)[i]),
    decreases s.len(),
{
    if s.len() > CHUNK_SIZE {
        let rest = s.skip(CHUNK_SIZE as int);
        assert(all_url_safe(rest)) by {
            assert forall|k: int| 0 <= k < rest.len() implies crate::codec::is_base64url_char(
                #[trigger] rest[k],
            ) by {
                assert(rest[k] == s[k + CHUNK_SIZE]);
            }
        }
        lemma_chunks_keep_chars(rest);
        assert forall|i: int| 0 <= i < chunks_of(s).len() implies all_url_safe(
            #[trigger] chunks_of(s)[i],
        ) by {
            if i == 0 {
                let first = s.take(CHUNK_SIZE as int);
                assert forall|k: int|
                    0 <= k < first.len() implies crate::codec::is_base64url_char(
                    #[trigger] first[k],
                ) by {
                    assert(first[k] == s[k]);
                }
            } else {
                assert(chunks_of(s)[i] == chunks_of(rest)[i - 1]);
            }
        }
    }
}

/// Splits the encoded session into [`CHUNK_SIZE`]-character pieces.
pub fn split_into_chunks(cookie_value: &str) -> (chunks: Vec<String>)
    ensures
        texts(chunks@) == chunks_of(cookie_value@),
{
    let v = chars_of(cookie_value);
    let total: usize = v.len();
    let mut chunks: Vec<String> = Vec::new();
    let mut start: usize = 0;
    proof {
        assert(v@.skip(0) =~= v@);
        assert(texts(chunks@) + chunks_of(v@.skip(0)) =~= chunks_of(v@));
    }
    while start < total
        invariant
            start <= total == v@.len(),
            v@ == cookie_value@,
            texts(chunks@) + chunks_of(v@.skip(start as int)) == chunks_of(v@),
        decreases total - start,
    {
        let end: usize = if total - start <= CHUNK_SIZE {
            total
        } else {
            start + CHUNK_SIZE
        };
        let chunk = string_of(&v, start, end);
        let ghost before = texts(chunks@);
        let ghost left = v@.skip(start as int);
        proof {
            if left.len() <= CHUNK_SIZE {
                assert(chunk@ =~= left);
                assert(v@.skip(end as int) =~= Seq::<char>::empty());
                assert(chunks_of(left) =~= seq![chunk@] + chunks_of(v@.skip(end as int)));
            } else {
                assert(chunk@ =~= left.take(CHUNK_SIZE as int));
                assert(left.skip(CHUNK_SIZE as int) =~= v@.skip(end as int));
            }
            assert(before + (seq![chunk@] + chunks_of(v@.skip(end as int))) =~= before.push(
                chunk@,
            ) + chunks_of(v@.skip(end as int)));
        }
        chunks.push(chunk);
        proof {
            assert(texts(chunks@) =~= before.push(chunks@.last()@));
        }
        start = end;
    }
    proof {
        assert(v@.skip(start as int) =~= Seq::<char>::empty());
        assert(texts(chunks@) + chunks_of(v@.skip(start as int)) =~= texts(chunks@));
    }
    chunks
}

/// The texts a map of chunks holds.
pub open spec fn chunk_texts(chunks: Map<usize, String>) -> Map<usize, Seq<char>> {
    chunks.map_values(|s: String| s@)
}

/// The first index from `i` on that has no chunk.
pub open spec fn first_gap(chunks: Map<usize, Seq<char>>, i: nat) -> nat
    decreases usize::MAX + 1 - i,
{
    if i <= usize::MAX && chunks.dom().contains(i as usize) {
        first_gap(chunks, i + 1)
    } else {
        i
    }
}

/// The first `n` chunks one after the other.
pub open spec fn joined_chunks(chunks: Map<usize, Seq<char>>, n: nat) -> Seq<char>
    decreases n,
{
    if n == 0 {
        Seq::empty()
    } else {
        joined_chunks(chunks, (n - 1) as nat) + chunks[(n - 1) as usize]
    }
}

/// The payload that numbered chunks make up: chunk 0, chunk 1, … up to the
/// first gap. Nothing when chunk 0 is absent.
pub open spec fn reassembled(chunks: Map<usize, Seq<char>>) -> Option<Seq<char>> {
    if chunks.dom().contains(0) {
        Some(joined_chunks(chunks, first_gap(chunks, 0)))
    } else {
        None
    }
}

proof fn lemma_first_gap(chunks: Map<usize, Seq<char>>, i: nat, n: nat)
    requires
        i <= n <= usize::MAX + 1,
        forall|k: usize| i <= k < n ==> #[trigger] chunks.dom().contains(k),
        n > usize::MAX || !chunks.dom().contains(n as usize),
    ensures
        first_gap(chunks, i) == n,
    decreases n - i,
{
    if i < n {
        assert(chunks.dom().contains(i as usize));
        lemma_first_gap(chunks, i + 1, n);
    }
}

/// Reassembles the chunked payload by concatenating `{name}.0`, `{name}.1`, …
/// until a gap is found. Returns `None` if chunk 0 is absent; truncation or
/// gaps just yield a payload that does not authenticate.
pub fn reassemble_chunks(chunks: &HashMap<usize, String>) -> (r: Option<String>)
    ensures
        opt_text(r) == reassembled(chunk_texts(chunks@)),
{
    let ghost m = chunk_texts(chunks@);
    if chunks.get(&0).is_none() {
        return None;
    }
    let mut raw_encoded = String::new();
    let mut i: usize = 0;
    loop
        invariant
            m == chunk_texts(chunks@),
            m.dom().contains(0),
            forall|k: usize| k < i ==> #[trigger] m.dom().contains(k),
            raw_encoded@ == joined_chunks(m, i as nat),
        decreases usize::MAX - i,
    {
        match chunks.get(&i) {
            Some(chunk) => {
                raw_encoded.append(chunk.as_str());
                proof {
                    assert(m[i] == chunk@);
                    assert((i + 1 - 1) as nat == i as nat);
                    assert(joined_chunks(m, (i + 1) as nat) == joined_chunks(m, i as nat) + m[i]);
                }
                if i == usize::MAX {
                    proof {
                        lemma_first_gap(m, 0, (i + 1) as nat);
                    }
                    return Some(raw_encoded);
                }
                i = i + 1;
            },
            None => {
                proof {
                    lemma_first_gap(m, 0, i as nat);
                }
                return Some(raw_encoded);
            },
        }
    }
}

// -- Chunk cookies --

/// The name of chunk cookie `i`.
pub open spec fn chunk_name(base: Seq<char>, i: usize) -> Seq<char> {
    base + "."@ + decimal(i as nat)
}

/// The index `N` of a cookie named `{base}.N`.
pub open spec fn chunk_index(name: Seq<char>, base: Seq<char>) -> Option<usize> {
    match after_prefix(name, base) {
        Some(suffix) => match after_prefix(suffix, "."@) {
            Some(number) => index_in(number),
            None => None,
        },
        None => None,
    }
}

/// The chunks among the cookies of a request; of two cookies with one index
/// the later counts.
pub open spec fn chunk_map(pairs: Seq<(Seq<char>, Seq<char>)>, base: Seq<char>) -> Map<
    usize,
    Seq<char>,
>
    decreases pairs.len(),
{
    if pairs.len() == 0 {
        Map::empty()
    } else {
        let before = chunk_map(pairs.drop_last(), base);
        match chunk_index(pairs.last().0, base) {
            Some(i) => before.insert(i, pairs.last().1),
            None => before,
        }
    }
}

/// The chunk indices among the cookies of a request, in the order sent.
pub open spec fn chunk_indices(pairs: Seq<(Seq<char>, Seq<char>)>, base: Seq<char>) -> Seq<usize>
    decreases pairs.len(),
{
    if pairs.len() == 0 {
        Seq::empty()
    } else {
        let before = chunk_indices(pairs.drop_last(), base);
        match chunk_index(pairs.last().0, base) {
            Some(i) => before.push(i),
            None => before,
        }
    }
}

/// A chunk's index is read back from its cookie name.
pub proof fn law_chunk_name_is_recognized(base: Seq<char>, i: usize)
    ensures
        chunk_index(chunk_name(base, i), base) == Some(i),
{
    reveal_strlit(".");
    let name = chunk_name(base, i);
    let number = decimal(i as nat);
    assert(name.subrange(0, base.len() as int) =~= base);
    assert(name.skip(base.len() as int) =~= "."@ + number);
    assert(("."@ + number).subrange(0, 1) =~= "."@);
    assert(("."@ + number).skip(1) =~= number);
    lemma_index_reads_back(i);
}

/// The kid sidecar is never taken for a chunk.
pub proof fn law_kid_sidecar_is_no_chunk(base: Seq<char>)
    ensures
        chunk_index(kid_name(base), base) is None,
{
    reveal_strlit(".");
    reveal_strlit(".kid");
    let name = kid_name(base);
    assert(name.subrange(0, base.len() as int) =~= base);
    assert(name.skip(base.len() as int) =~= ".kid"@);
    let number = ".kid"@.skip(1);
    assert(number[0] == 'k');
    assert(crate::text::unsigned_digits(number) == number);
    assert(!crate::text::is_digit(number[0]));
}

/// A change to one cookie of the browser.
pub enum CookieWrite {
    /// The cookie of that name gets a value.
    Store(Seq<char>, Seq<char>),
    /// The cookie of that name is discarded.
    Clear(Seq<char>),
}

impl CookieWrite {
    /// The `Set-Cookie` value that makes the change.
    pub open spec fn text(self, sealer: SealerView) -> Seq<char> {
        match self {
            CookieWrite::Store(name, value) => set_cookie(name, value, sealer.full_attrs()),
            CookieWrite::Clear(name) => clear_cookie(name, sealer.base_attrs()),
        }
    }
}

/// The `Set-Cookie` values that make a list of changes.
pub open spec fn write_texts(writes: Seq<CookieWrite>, sealer: SealerView) -> Seq<Seq<char>> {
    writes.map_values(|w: CookieWrite| w.text(sealer))
}

/// The writes that set one cookie per chunk.
pub open spec fn chunk_writes(base: Seq<char>, chunks: Seq<Seq<char>>) -> Seq<CookieWrite> {
    Seq::new(
        chunks.len(),
        |i: int| CookieWrite::Store(chunk_name(base, i as usize), chunks[i]),
    )
}

/// The writes that clear the chunk slots from `from` on.
pub open spec fn clear_writes(base: Seq<char>, indices: Seq<usize>, from: nat) -> Seq<CookieWrite>
    decreases indices.len(),
{
    if indices.len() == 0 {
        Seq::empty()
    } else {
        let before = clear_writes(base, indices.drop_last(), from);
        if indices.last() >= from {
            before.push(CookieWrite::Clear(chunk_name(base, indices.last())))
        } else {
            before
        }
    }
}

/// The write for the kid sidecar.
pub open spec fn kid_write(base: Seq<char>, kid: Option<Seq<char>>) -> CookieWrite {
    match kid {
        Some(k) => CookieWrite::Store(kid_name(base), base64url(encode_utf8(k))),
        None => CookieWrite::Clear(kid_name(base)),
    }
}

/// What a save changes in the browser: the chunks are set, the chunk slots of
/// the request that they do not fill are cleared, and the kid sidecar follows.
pub open spec fn save_writes(
    base: Seq<char>,
    chunks: Seq<Seq<char>>,
    kid: Option<Seq<char>>,
    pairs: Seq<(Seq<char>, Seq<char>)>,
) -> Seq<CookieWrite> {
    (chunk_writes(base, chunks) + clear_writes(base, chunk_indices(pairs, base), chunks.len()))
        .push(kid_write(base, kid))
}

/// What a delete changes in the browser: the kid sidecar and every chunk slot
/// of the request are cleared.
pub open spec fn delete_writes(base: Seq<char>, pairs: Seq<(Seq<char>, Seq<char>)>) -> Seq<
    CookieWrite,
> {
    seq![CookieWrite::Clear(kid_name(base))] + clear_writes(base, chunk_indices(pairs, base), 0)
}

// -- The store --

/// The default cookie payload: a newtype over [`SessionState`], carrying no
/// claims beyond its `sub`/`sid`.
pub struct CookieSession(pub SessionState);

impl Session for CookieSession {
    open spec fn embedded(&self) -> SessionState {
        self.0
    }

    open spec fn agrees_outside_state(&self, other: &Self) -> bool {
        true
    }

    open spec fn same_record(&self, other: &Self) -> bool {
        true
    }

    fn state(&self) -> &SessionState {
        &self.0
    }

    fn set_state(&mut self, state: SessionState) {
        self.0 = state;
    }
}

impl From<SessionState> for CookieSession {
    fn from(state: SessionState) -> (c: Self) {
        CookieSession(state)
    }
}

impl vstd::std_specs::convert::FromSpecImpl<SessionState> for CookieSession {
    open spec fn obeys_from_spec() -> bool {
        true
    }

    open spec fn from_spec(state: SessionState) -> CookieSession {
        CookieSession(state)
    }
}

/// A session store that encrypts session data into chunked cookies.
///
/// Decryption failure is treated as "no session". The `Secure` attribute and
/// `__Host-`/`__Secure-` prefix are stamped on by the engine via
/// [`apply_session_policy`](SessionDriver::apply_session_policy), not configured here.
///
/// Cookie sessions are stateless: a delete only clears the cooperating
/// browser's cookie (no server-side revocation, no idle timeout).
#[derive(Debug)]
pub struct CookieSessionStore {
    sealer: CookieSealer,
    max_chunks: usize,
    max_lifetime: Option<Duration>,
}

/// The settings of a [`CookieSessionStore`].
#[verifier::ext_equal]
pub struct CookieStoreView {
    /// How its cookies are named and sealed.
    pub sealer: SealerView,
    /// How many chunk cookies a session may occupy.
    pub max_chunks: usize,
    /// The lifetime cap frozen into new sessions.
    pub max_lifetime: Option<Duration>,
}

impl CookieStoreView {
    /// The chunk cookies of a request.
    pub open spec fn request_chunks(self, headers: HeaderMap) -> Map<usize, Seq<char>> {
        chunk_map(request_cookies(headers), self.sealer.wire_name())
    }

    /// What loading a session from a request finds.
    pub open spec fn found(self, headers: HeaderMap) -> FoundCookie {
        match reassembled(self.request_chunks(headers)) {
            Some(text) => match base64url_bytes(text) {
                Some(bundle) => FoundCookie::Sealed(bundle),
                None => FoundCookie::Malformed,
            },
            None => FoundCookie::Absent,
        }
    }

    /// The associated data the session is sealed with.
    pub open spec fn session_aad(self) -> Seq<u8> {
        encode_utf8(self.sealer.aad("session"@))
    }

    /// The session a request loads, given the plaintext the cipher opens a
    /// bundle to under a key hint and associated data, and the session a
    /// plaintext decodes to.
    pub open spec fn loads<C>(
        self,
        headers: HeaderMap,
        opens: spec_fn(Option<Seq<char>>, Seq<u8>, Seq<u8>) -> Option<Seq<u8>>,
        decodes: spec_fn(Seq<u8>) -> Option<C>,
    ) -> Option<C> {
        match self.found(headers) {
            FoundCookie::Sealed(bundle) => {
                let kid = request_kid(headers, self.sealer.wire_name());
                match unsealed(
                    opens(kid, bundle, self.session_aad()),
                    opens(None, bundle, self.session_aad()),
                    kid is Some,
                ) {
                    Some(plaintext) => loaded_session(Some(decodes(plaintext))),
                    None => loaded_session(None),
                }
            },
            _ => None,
        }
    }
}

/// The session behind a session cookie: `opened` is what the plaintext decodes
/// to, if the bundle was opened at all.
pub open spec fn loaded_session<C>(opened: Option<Option<C>>) -> Option<C> {
    match opened {
        Some(decoded) => decoded,
        None => None,
    }
}

/// The outcome to report for a session cookie that was no malformed one.
pub open spec fn load_outcome<C>(opened: Option<Option<C>>) -> DecryptResult {
    match opened {
        None => DecryptResult::DecryptFailed,
        Some(None) => DecryptResult::PayloadInvalid,
        Some(Some(_)) => DecryptResult::Success,
    }
}

/// What loading a session from a request finds.
#[verifier::ext_equal]
pub enum FoundCookie {
    /// No session cookie.
    Absent,
    /// A session cookie that is no base64url.
    Malformed,
    /// A sealed bundle, to be opened.
    Sealed(Seq<u8>),
}

impl View for CookieSessionStore {
    type V = CookieStoreView;

    closed spec fn view(&self) -> CookieStoreView {
        CookieStoreView {
            sealer: self.sealer@,
            max_chunks: self.max_chunks,
            max_lifetime: self.max_lifetime,
        }
    }
}

/// What a load has to do next.
pub enum CookieLoad {
    /// The request carries no session cookie: there is no session, and nothing
    /// to report.
    Absent,
    /// The session cookie is malformed: there is no session.
    Malformed {
        /// The key identity the kid sidecar names.
        kid: Option<String>,
    },
    /// The bundle has to be opened with the associated data, trying the key
    /// the sidecar names first.
    Unseal {
        /// The key identity the kid sidecar names.
        kid: Option<String>,
        /// The sealed session.
        bundle: Vec<u8>,
        /// The associated data it was sealed with.
        aad: Vec<u8>,
    },
}

/// What a save hands back.
pub struct SavedCookies {
    /// The `Set-Cookie` values for the response.
    pub headers: Vec<String>,
    /// The counter to increment.
    pub counter: Counter,
}

/// The message of a save refused because the session outgrew its budget.
pub open spec fn too_large_text(chunks: nat, encoded_len: nat, max_chunks: nat) -> Seq<char> {
    "serialized session needs "@ + decimal(chunks) + " cookie chunks ("@ + decimal(encoded_len)
        + " bytes encoded), over the configured max_chunks of "@ + decimal(max_chunks)
        + "; oversized cookies can exceed request-header limits and lock the client out — shrink the session payload or use a store-backed session"@
}

fn too_large_message(chunks: usize, encoded_len: usize, max_chunks: usize) -> (s: String)
    ensures
        s@ == too_large_text(chunks as nat, encoded_len as nat, max_chunks as nat),
{
    let mut s = "serialized session needs ".to_owned();
    s.append(to_decimal(chunks as u128).as_str());
    s.append(" cookie chunks (");
    s.append(to_decimal(encoded_len as u128).as_str());
    s.append(" bytes encoded), over the configured max_chunks of ");
    s.append(to_decimal(max_chunks as u128).as_str());
    s.append(
        "; oversized cookies can exceed request-header limits and lock the client out — shrink the session payload or use a store-backed session",
    );
    s
}

proof fn lemma_chunk_name_is_header_text(base: Seq<char>, i: usize)
    requires
        is_header_text(base),
    ensures
        is_header_text(chunk_name(base, i)),
{
    reveal_strlit(".");
    lemma_decimal_is_header_text(i as nat);
    lemma_header_text_joins(base, "."@);
    lemma_header_text_joins(base + "."@, decimal(i as nat));
}

fn chunk_cookie_name(base: &str, i: usize) -> (s: String)
    ensures
        s@ == chunk_name(base@, i),
{
    let mut s = base.to_owned();
    s.append(".");
    s.append(to_decimal(i as u128).as_str());
    s
}

impl CookieSessionStore {
    /// Creates a new cookie session store. `max_chunks` is the most chunk
    /// cookies a saved session may occupy; a save needing more fails instead
    /// of writing. Values below 1 are treated as 1.
    pub fn new(
        cookie_name: CookieName,
        cookie_path: RoutePath,
        max_age: Duration,
        max_chunks: usize,
    ) -> (s: Self)
        ensures
            s@ == (CookieStoreView {
                sealer: SealerView {
                    name: cookie_name@,
                    secure: true,
                    path: cookie_path@,
                    max_age,
                    metrics_name: None,
                },
                max_chunks: if max_chunks < 1 {
                    1
                } else {
                    max_chunks
                },
                max_lifetime: None,
            }),
    {
        CookieSessionStore {
            sealer: CookieSealer::new(cookie_name, cookie_path, max_age),
            max_chunks: if max_chunks < 1 {
                1
            } else {
                max_chunks
            },
            max_lifetime: None,
        }
    }

    /// Creates a store with the default settings: cookies last
    /// [`default_cookie_max_age`], and a session may occupy
    /// [`DEFAULT_MAX_CHUNKS`] of them.
    pub fn with_defaults(cookie_name: CookieName, cookie_path: RoutePath) -> (s: Self)
        ensures
            s@ == (CookieStoreView {
                sealer: default_sealer(cookie_name@, cookie_path@),
                max_chunks: DEFAULT_MAX_CHUNKS,
                max_lifetime: None,
            }),
    {
        CookieSessionStore::new(
            cookie_name,
            cookie_path,
            default_cookie_max_age(),
            DEFAULT_MAX_CHUNKS,
        )
    }

    /// The cookie name on the wire.
    pub fn cookie_name(&self) -> (s: &str)
        ensures
            s@ == self@.sealer.wire_name(),
    {
        self.sealer.cookie_name()
    }

    /// The lifetime cap frozen into new sessions.
    pub fn max_lifetime(&self) -> (d: Option<Duration>)
        ensures
            d == self@.max_lifetime,
    {
        self.max_lifetime
    }

    /// The state a new session is built from, its deadline frozen by the
    /// lifetime cap stamped onto this store.
    pub fn seed(
        &self,
        completed: &CompletedLogin,
        default_lifetime: Duration,
        now: Timestamp,
    ) -> (seed: SessionState)
        ensures
            seed == (SessionState {
                token_expiry: now.later(completed@.token_response.lifetime(default_lifetime)),
                refresh_token: completed@.token_response.refresh_token,
                sub: completed@.subject,
                sid: match completed@.id_token_claims {
                    Some(claims) => claims.sid,
                    None => None,
                },
                created_at: now,
                expire_at: match self@.max_lifetime {
                    Some(max) => Some(now.later(max)),
                    None => None,
                },
            }),
    {
        SessionState::from_completed(completed, default_lifetime, self.max_lifetime, now)
    }

    /// The associated data session bundles are sealed with.
    pub fn session_aad(&self) -> (aad: Vec<u8>)
        ensures
            aad@ == self@.session_aad(),
    {
        self.sealer.aad("session")
    }

    /// Parses the chunk index `N` from a `{cookie_name}.N` cookie name,
    /// trimmed.
    pub fn parse_chunk_index(&self, name: &str) -> (i: Option<usize>)
        ensures
            i == chunk_index(trimmed(name@), self@.sealer.wire_name()),
    {
        self.index_of(trim(name).as_str())
    }

    fn index_of(&self, name: &str) -> (i: Option<usize>)
        ensures
            i == chunk_index(name@, self@.sealer.wire_name()),
    {
        match strip_prefix(name, self.sealer.cookie_name()) {
            Some(suffix) => match strip_prefix(suffix.as_str(), ".") {
                Some(number) => parse_index(number.as_str()),
                None => None,
            },
            None => None,
        }
    }

    /// Parses a `name=value` cookie pair into `(index, value)` if `name`
    /// matches `{cookie_name}.N`.
    pub fn parse_chunk_pair(&self, pair: &str) -> (r: Option<(usize, String)>)
        ensures
            match pair_in(pair@) {
                Some((name, value)) => match chunk_index(name, self@.sealer.wire_name()) {
                    Some(i) => r matches Some((j, v)) && j == i && v@ == value,
                    None => r is None,
                },
                None => r is None,
            },
    {
        let segment = trim(pair);
        match split_once(segment.as_str(), '=') {
            Some((name, value)) => match self.parse_chunk_index(name.as_str()) {
                Some(i) => Some((i, trim(value.as_str()))),
                None => None,
            },
            None => None,
        }
    }

    /// Scans the request's cookies for `{cookie_name}.N` pairs, returning a map
    /// of chunk index to value. Unrelated cookies are ignored.
    pub fn collect_session_chunks(&self, headers: &HeaderMap) -> (chunks: HashMap<usize, String>)
        ensures
            chunk_texts(chunks@) == self@.request_chunks(*headers),
    {
        let pairs = cookie_pairs(headers);
        let ghost all = pair_texts(pairs@);
        let ghost base = self@.sealer.wire_name();
        let mut chunks: HashMap<usize, String> = HashMap::new();
        let mut i: usize = 0;
        proof {
            assert(all.take(0) =~= Seq::<(Seq<char>, Seq<char>)>::empty());
            assert(chunk_texts(chunks@) =~= Map::<usize, Seq<char>>::empty());
        }
        while i < pairs.len()
            invariant
                i <= pairs@.len(),
                all == pair_texts(pairs@),
                base == self@.sealer.wire_name(),
                chunk_texts(chunks@) == chunk_map(all.take(i as int), base),
            decreases pairs@.len() - i,
        {
            proof {
                assert(all.take(i + 1).drop_last() =~= all.take(i as int));
                assert(all.take(i + 1).last() == (pairs@[i as int].0@, pairs@[i as int].1@));
            }
            if let Some(index) = self.index_of(pairs[i].0.as_str()) {
                let ghost before = chunk_texts(chunks@);
                let value = pairs[i].1.clone();
                chunks.insert(index, value);
                proof {
                    assert(chunk_texts(chunks@) =~= before.insert(index, pairs@[i as int].1@));
                }
            }
            i = i + 1;
        }
        proof {
            assert(all.take(all.len() as int) =~= all);
        }
        chunks
    }

    /// The chunk index of every `{cookie_name}.N` cookie the browser sent.
    pub fn request_chunk_indices(&self, headers: &HeaderMap) -> (indices: Vec<usize>)
        ensures
            indices@ == chunk_indices(request_cookies(*headers), self@.sealer.wire_name()),
    {
        let pairs = cookie_pairs(headers);
        let ghost all = pair_texts(pairs@);
        let ghost base = self@.sealer.wire_name();
        let mut indices: Vec<usize> = Vec::new();
        let mut i: usize = 0;
        proof {
            assert(all.take(0) =~= Seq::<(Seq<char>, Seq<char>)>::empty());
        }
        while i < pairs.len()
            invariant
                i <= pairs@.len(),
                all == pair_texts(pairs@),
                base == self@.sealer.wire_name(),
                indices@ == chunk_indices(all.take(i as int), base),
            decreases pairs@.len() - i,
        {
            proof {
                assert(all.take(i + 1).drop_last() =~= all.take(i as int));
                assert(all.take(i + 1).last() == (pairs@[i as int].0@, pairs@[i as int].1@));
            }
            if let Some(index) = self.index_of(pairs[i].0.as_str()) {
                indices.push(index);
            }
            i = i + 1;
        }
        proof {
            assert(all.take(all.len() as int) =~= all);
        }
        indices
    }

    /// What loading a session from the request's cookies has to do: nothing,
    /// report a malformed cookie, or open a bundle.
    pub fn load_session(&self, headers: &HeaderMap) -> (load: CookieLoad)
        ensures
            match load {
                CookieLoad::Absent => self@.found(*headers) == FoundCookie::Absent,
                CookieLoad::Malformed { kid } => {
                    &&& self@.found(*headers) == FoundCookie::Malformed
                    &&& opt_text(kid) == request_kid(*headers, self@.sealer.wire_name())
                },
                CookieLoad::Unseal { kid, bundle, aad } => {
                    &&& self@.found(*headers) == FoundCookie::Sealed(bundle@)
                    &&& opt_text(kid) == request_kid(*headers, self@.sealer.wire_name())
                    &&& aad@ == self@.session_aad()
                },
            },
    {
        let chunks = self.collect_session_chunks(headers);
        match reassemble_chunks(&chunks) {
            None => CookieLoad::Absent,
            Some(raw_encoded) => {
                let kid = get_kid_cookie(headers, self.sealer.cookie_name());
                match decode_base64url(raw_encoded.as_str()) {
                    None => CookieLoad::Malformed { kid },
                    Some(bundle) => CookieLoad::Unseal { kid, bundle, aad: self.session_aad() },
                }
            },
        }
    }

    /// The counter for a session cookie that is malformed.
    pub fn record_malformed_load(&self, kid: Option<&str>, matches_key: bool) -> (c: Counter)
        ensures
            c@ == self@.sealer.decrypt_counter(
                opt_str(kid),
                matches_key,
                DecryptResult::BadEncoding,
            ),
    {
        self.sealer.record_decrypt(kid, matches_key, DecryptResult::BadEncoding)
    }

    /// Ends a load: `opened` is what the plaintext decodes to, if the bundle
    /// was opened at all. A bundle that does not open, or opens to something
    /// that does not decode, is no session.
    pub fn finish_load<C>(
        &self,
        kid: Option<&str>,
        matches_key: bool,
        opened: Option<Option<C>>,
    ) -> (r: (Option<C>, Counter))
        ensures
            r.0 == loaded_session(opened),
            r.1@ == self@.sealer.decrypt_counter(opt_str(kid), matches_key, load_outcome(opened)),
    {
        let (session, outcome) = match opened {
            None => (None, DecryptResult::DecryptFailed),
            Some(None) => (None, DecryptResult::PayloadInvalid),
            Some(Some(session)) => (Some(session), DecryptResult::Success),
        };
        (session, self.sealer.record_decrypt(kid, matches_key, outcome))
    }

    /// Builds the `Set-Cookie` header for chunk `i`.
    fn build_chunk_header(&self, i: usize, chunk: &str, attrs: &str) -> (r: Result<
        String,
        SessionError,
    >)
        requires
            all_url_safe(chunk@),
            attrs@ == self@.sealer.full_attrs(),
        ensures
            r is Ok,
            r->Ok_0@ == CookieWrite::Store(
                chunk_name(self@.sealer.wire_name(), i),
                chunk@,
            ).text(self@.sealer),
            is_header_text(r->Ok_0@),
    {
        let name = chunk_cookie_name(self.sealer.cookie_name(), i);
        let value = set_cookie_text(name.as_str(), chunk, attrs);
        proof {
            lemma_sealer_texts(self@.sealer);
            lemma_chunk_name_is_header_text(self@.sealer.wire_name(), i);
            lemma_url_safe_is_header_text(chunk@);
            lemma_set_cookie_is_header_text(name@, chunk@, attrs@);
        }
        if is_header_value(value.as_str()) {
            Ok(value)
        } else {
            Err(SessionError::new(SessionErrorKind::Store, "failed to parse header value"))
        }
    }

    /// Appends `Max-Age=0` clears for every chunk slot the browser sent with an
    /// index of at least `num_chunks`.
    fn append_clears_for_leftover_chunks(
        &self,
        headers: &mut Vec<String>,
        num_chunks: usize,
        request_headers: &HeaderMap,
    )
        ensures
            texts(final(headers)@) == texts(old(headers)@) + write_texts(
                clear_writes(
                    self@.sealer.wire_name(),
                    chunk_indices(request_cookies(*request_headers), self@.sealer.wire_name()),
                    num_chunks as nat,
                ),
                self@.sealer,
            ),
    {
        let clear_attrs = self.sealer.base_cookie_attrs();
        let indices = self.request_chunk_indices(request_headers);
        let ghost base = self@.sealer.wire_name();
        let ghost before = texts(headers@);
        let ghost all = indices@;
        let mut i: usize = 0;
        proof {
            assert(all.take(0) =~= Seq::<usize>::empty());
            assert(write_texts(clear_writes(base, all.take(0), num_chunks as nat), self@.sealer)
                =~= Seq::<Seq<char>>::empty());
            assert(before + Seq::<Seq<char>>::empty() =~= before);
        }
        while i < indices.len()
            invariant
                i <= indices@.len(),
                all == indices@,
                base == self@.sealer.wire_name(),
                clear_attrs@ == self@.sealer.base_attrs(),
                texts(headers@) == before + write_texts(
                    clear_writes(base, all.take(i as int), num_chunks as nat),
                    self@.sealer,
                ),
            decreases indices@.len() - i,
        {
            let idx: usize = indices[i];
            proof {
                assert(all.take(i + 1).drop_last() =~= all.take(i as int));
                assert(all.take(i + 1).last() == idx);
            }
            if idx >= num_chunks {
                let name = chunk_cookie_name(self.sealer.cookie_name(), idx);
                let value = clear_cookie_text(name.as_str(), clear_attrs.as_str());
                proof {
                    lemma_sealer_texts(self@.sealer);
                    lemma_chunk_name_is_header_text(base, idx);
                    lemma_set_cookie_is_header_text(name@, Seq::empty(), clear_attrs@);
                }
                if is_header_value(value.as_str()) {
                    let ghost seen = texts(headers@);
                    let ghost done = clear_writes(base, all.take(i as int), num_chunks as nat);
                    headers.push(value);
                    proof {
                        assert(texts(headers@) =~= seen.push(value@));
                        let w = CookieWrite::Clear(chunk_name(base, idx));
                        assert(write_texts(done.push(w), self@.sealer) =~= write_texts(
                            done,
                            self@.sealer,
                        ).push(w.text(self@.sealer)));
                        assert(seen.push(value@) =~= before + write_texts(
                            done,
                            self@.sealer,
                        ).push(value@));
                    }
                }
            }
            i = i + 1;
        }
        proof {
            assert(all.take(all.len() as int) =~= all);
        }
    }

    /// Turns a sealed session into the `Set-Cookie` values that store it: one
    /// cookie per chunk, clears for the chunk slots of the request that the
    /// session no longer fills, and the kid sidecar.
    ///
    /// # Errors
    ///
    /// A [`Store`](SessionErrorKind::Store) error if the session needs more
    /// than `max_chunks` cookies: past common request-header limits a server
    /// rejects every request before the clearing path could run.
    pub fn save_session(
        &self,
        bundle: &[u8],
        kid: Option<&str>,
        request_headers: &HeaderMap,
    ) -> (r: Result<SavedCookies, SessionError>)
        requires
            base64_len(bundle@.len()) <= isize::MAX,
            kid matches Some(k) ==> base64_len(encode_utf8(k@).len()) <= isize::MAX,
        ensures
            base64url_bytes(base64url(bundle@)) == Some(bundle@),
            base64url(bundle@).len() == base64_len(bundle@.len()),
            ({
                let chunks = chunks_of(base64url(bundle@));
                match r {
                    Ok(saved) => {
                        &&& chunks.len() <= self@.max_chunks
                        &&& texts(saved.headers@) == write_texts(
                            save_writes(
                                self@.sealer.wire_name(),
                                chunks,
                                opt_str(kid),
                                request_cookies(*request_headers),
                            ),
                            self@.sealer,
                        )
                        &&& saved.counter@ == self@.sealer.encrypt_counter(opt_str(kid))
                        &&& bundle@.len() > 0 ==> reads_back(
                            self@,
                            bundle@,
                            opt_str(kid),
                            request_cookies(*request_headers),
                        )
                    },
                    Err(e) => {
                        &&& chunks.len() > self@.max_chunks
                        &&& e@ == error_caused_by(
                            SessionErrorKind::Store,
                            too_large_text(
                                chunks.len(),
                                base64url(bundle@).len(),
                                self@.max_chunks as nat,
                            ),
                        )
                    },
                }
            }),
    {
        let cookie_value = encode_base64url(bundle);
        let chunks = split_into_chunks(cookie_value.as_str());
        let num_chunks: usize = chunks.len();
        let encoded_len: usize = chars_of(cookie_value.as_str()).len();
        let ghost parts = chunks_of(cookie_value@);
        proof {
            assert(texts(chunks@).len() == chunks@.len());
        }
        if num_chunks > self.max_chunks {
            return Err(
                SessionError::new(
                    SessionErrorKind::Store,
                    too_large_message(num_chunks, encoded_len, self.max_chunks).as_str(),
                ),
            );
        }
        proof {
            if bundle@.len() > 0 {
                lemma_saved_bundle_reads_back(
                    self@,
                    bundle@,
                    opt_str(kid),
                    request_cookies(*request_headers),
                );
            }
        }
        let counter = self.sealer.record_encrypt(kid);
        let attrs = self.sealer.cookie_attrs();
        let ghost base = self@.sealer.wire_name();
        let ghost sets = chunk_writes(base, parts);
        proof {
            lemma_chunks_keep_chars(cookie_value@);
        }
        let mut headers: Vec<String> = Vec::new();
        let mut i: usize = 0;
        proof {
            assert(texts(headers@) =~= write_texts(sets.take(0), self@.sealer));
        }
        while i < num_chunks
            invariant
                i <= num_chunks == chunks@.len(),
                parts == texts(chunks@),
                parts.len() == num_chunks,
                base == self@.sealer.wire_name(),
                sets == chunk_writes(base, parts),
                attrs@ == self@.sealer.full_attrs(),
                forall|k: int| 0 <= k < parts.len() ==> all_url_safe(#[trigger] parts[k]),
                texts(headers@) == write_texts(sets.take(i as int), self@.sealer),
            decreases num_chunks - i,
        {
            proof {
                assert(parts[i as int] == chunks@[i as int]@);
            }
            match self.build_chunk_header(i, chunks[i].as_str(), attrs.as_str()) {
                Ok(header) => {
                    let ghost seen = texts(headers@);
                    headers.push(header);
                    proof {
                        assert(texts(headers@) =~= seen.push(header@));
                        assert(sets.take(i + 1) =~= sets.take(i as int).push(sets[i as int]));
                        assert(write_texts(sets.take(i + 1), self@.sealer) =~= write_texts(
                            sets.take(i as int),
                            self@.sealer,
                        ).push(sets[i as int].text(self@.sealer)));
                    }
                },
                Err(e) => {
                    return Err(e);
                },
            }
            i = i + 1;
        }
        proof {
            assert(sets.take(sets.len() as int) =~= sets);
        }
        self.append_clears_for_leftover_chunks(&mut headers, num_chunks, request_headers);
        match self.sealer.build_kid_header(kid) {
            Ok(header) => {
                let ghost seen = texts(headers@);
                headers.push(header);
                proof {
                    let clears = clear_writes(
                        base,
                        chunk_indices(request_cookies(*request_headers), base),
                        num_chunks as nat,
                    );
                    assert(texts(headers@) =~= seen.push(header@));
                    assert(kid_write(base, opt_str(kid)).text(self@.sealer) == header@);
                    assert(texts(headers@) =~= write_texts(
                        (sets + clears).push(kid_write(base, opt_str(kid))),
                        self@.sealer,
                    ));
                }
            },
            Err(e) => {
                return Err(e);
            },
        }
        Ok(SavedCookies { headers, counter })
    }

    /// The `Set-Cookie` values that clear a session: the kid sidecar
    /// unconditionally, then every chunk slot the browser currently has.
    pub fn delete_headers(&self, request_headers: &HeaderMap) -> (headers: Vec<String>)
        ensures
            texts(headers@) == write_texts(
                delete_writes(self@.sealer.wire_name(), request_cookies(*request_headers)),
                self@.sealer,
            ),
    {
        let mut headers: Vec<String> = Vec::new();
        let ghost base = self@.sealer.wire_name();
        match self.sealer.build_kid_header(None) {
            Ok(header) => {
                headers.push(header);
            },
            Err(_) => {},
        }
        let ghost first = texts(headers@);
        self.append_clears_for_leftover_chunks(&mut headers, 0, request_headers);
        proof {
            let clears = clear_writes(
                base,
                chunk_indices(request_cookies(*request_headers), base),
                0,
            );
            assert(first =~= seq![CookieWrite::Clear(kid_name(base)).text(self@.sealer)]);
            assert(texts(headers@) =~= write_texts(
                seq![CookieWrite::Clear(kid_name(base))] + clears,
                self@.sealer,
            ));
        }
        headers
    }
}

impl Sealed for CookieSessionStore {

}

impl SessionDriver for CookieSessionStore {
    open spec fn cookie_settings(&self) -> SealerView {
        self@.sealer
    }

    open spec fn frozen_cap(&self) -> Option<Duration> {
        self@.max_lifetime
    }

    open spec fn is_stamped_from(
        &self,
        before: &Self,
        secure: bool,
        max_lifetime: Option<Duration>,
        metrics_name: Option<Seq<char>>,
    ) -> bool {
        self@ == (CookieStoreView {
            sealer: stamped(before@.sealer, secure, max_lifetime, metrics_name),
            max_lifetime,
            ..before@
        })
    }

    /// Stamps the engine-derived session policy onto this store: `secure`
    /// fixes the cookie name prefix and the `Secure` attribute; `max_lifetime`
    /// clamps the cookie `Max-Age`, so no session cookie outlives the session
    /// cap, and is frozen into new sessions.
    fn apply_session_policy(
        &mut self,
        secure: bool,
        max_lifetime: Option<Duration>,
        metrics_name: Option<&str>,
    )
    {
        self.sealer.apply_secure(secure);
        if let Some(cap) = max_lifetime {
            self.sealer.clamp_max_age(cap);
        }
        self.sealer.set_metrics_name(metrics_name);
        self.max_lifetime = max_lifetime;
    }
}

// -- What the browser keeps --

/// The cookies of a browser after a list of changes.
pub open spec fn jar_after(
    jar: Map<Seq<char>, Seq<char>>,
    writes: Seq<CookieWrite>,
) -> Map<Seq<char>, Seq<char>>
    decreases writes.len(),
{
    if writes.len() == 0 {
        jar
    } else {
        let before = jar_after(jar, writes.drop_last());
        match writes.last() {
            CookieWrite::Store(name, value) => before.insert(name, value),
            CookieWrite::Clear(name) => before.remove(name),
        }
    }
}

/// Whether a request presents the cookies of a browser: all of them, with
/// their values, and no others.
pub open spec fn presents(
    pairs: Seq<(Seq<char>, Seq<char>)>,
    jar: Map<Seq<char>, Seq<char>>,
) -> bool {
    &&& forall|i: int|
        0 <= i < pairs.len() ==> jar.dom().contains((#[trigger] pairs[i]).0) && pairs[i].1
            == jar[pairs[i].0]
    &&& forall|name: Seq<char>| #[trigger]
        jar.dom().contains(name) ==> exists|i: int|
            0 <= i < pairs.len() && (#[trigger] pairs[i]).0 == name
}

/// Whether the chunk slots in a browser are named the way this store names
/// them: without a sign or leading zeros in the index.
pub open spec fn canonical_slots(jar: Map<Seq<char>, Seq<char>>, base: Seq<char>) -> bool {
    forall|name: Seq<char>| #[trigger]
        jar.dom().contains(name) && chunk_index(name, base) is Some ==> name == chunk_name(
            base,
            chunk_index(name, base)->0,
        )
}

/// A cookie that is neither a chunk slot nor the kid sidecar.
pub open spec fn is_unrelated(name: Seq<char>, base: Seq<char>) -> bool {
    chunk_index(name, base) is None && name != kid_name(base)
}

/// Whether the cookies that are not the session's are the same in two
/// browsers.
pub open spec fn keeps_unrelated(
    before: Map<Seq<char>, Seq<char>>,
    after: Map<Seq<char>, Seq<char>>,
    base: Seq<char>,
) -> bool {
    forall|name: Seq<char>|
        #![trigger after.dom().contains(name)]
        is_unrelated(name, base) ==> (before.dom().contains(name) <==> after.dom().contains(name))
            && before[name] == after[name]
}

proof fn lemma_jar_append(
    jar: Map<Seq<char>, Seq<char>>,
    a: Seq<CookieWrite>,
    b: Seq<CookieWrite>,
)
    ensures
        jar_after(jar, a + b) == jar_after(jar_after(jar, a), b),
    decreases b.len(),
{
    if b.len() == 0 {
        assert(a + b =~= a);
    } else {
        assert((a + b).drop_last() =~= a + b.drop_last());
        assert((a + b).last() == b.last());
        lemma_jar_append(jar, a, b.drop_last());
    }
}

#[verifier::spinoff_prover]
proof fn lemma_jar_after_chunks(
    jar: Map<Seq<char>, Seq<char>>,
    base: Seq<char>,
    chunks: Seq<Seq<char>>,
    n: int,
)
    requires
        0 <= n <= chunks.len() <= usize::MAX,
    ensures
        ({
            let after = jar_after(jar, chunk_writes(base, chunks).take(n));
            &&& forall|i: usize|
                i < n ==> after.dom().contains(#[trigger] chunk_name(base, i)) && after[chunk_name(
                    base,
                    i,
                )] == chunks[i as int]
            &&& forall|name: Seq<char>|
                (chunk_index(name, base) is None || chunk_index(name, base)->0 >= n) ==> (
                #[trigger] after.dom().contains(name) <==> jar.dom().contains(name))
                    && after[name] == jar[name]
            &&& forall|name: Seq<char>| #[trigger]
                after.dom().contains(name) && chunk_index(name, base) is Some && name != chunk_name(
                    base,
                    chunk_index(name, base)->0,
                ) ==> jar.dom().contains(name)
        }),
    decreases n,
{
    let writes = chunk_writes(base, chunks);
    if n == 0 {
        assert(writes.take(0) =~= Seq::<CookieWrite>::empty());
    } else {
        lemma_jar_after_chunks(jar, base, chunks, n - 1);
        assert(writes.take(n).drop_last() =~= writes.take(n - 1));
        let last = (n - 1) as usize;
        assert(writes.take(n).last() == CookieWrite::Store(chunk_name(base, last), chunks[n - 1]));
        let before = jar_after(jar, writes.take(n - 1));
        let after = jar_after(jar, writes.take(n));
        assert(after == before.insert(chunk_name(base, last), chunks[n - 1]));
        law_chunk_name_is_recognized(base, last);
        assert forall|i: usize| i < n implies after.dom().contains(#[trigger] chunk_name(base, i))
            && after[chunk_name(base, i)] == chunks[i as int] by {
            law_chunk_name_is_recognized(base, i);
        }
        assert forall|name: Seq<char>|
            (chunk_index(name, base) is None || chunk_index(name, base)->0 >= n) implies (
        #[trigger] after.dom().contains(name) <==> jar.dom().contains(name)) && after[name]
            == jar[name] by {
            assert(name != chunk_name(base, last));
            assert(before.dom().contains(name) <==> jar.dom().contains(name));
        }
        assert forall|name: Seq<char>| #[trigger]
            after.dom().contains(name) && chunk_index(name, base) is Some && name != chunk_name(
                base,
                chunk_index(name, base)->0,
            ) implies jar.dom().contains(name) by {
            assert(before.dom().contains(name));
        }
    }
}

#[verifier::spinoff_prover]
proof fn lemma_jar_after_clears(
    jar: Map<Seq<char>, Seq<char>>,
    base: Seq<char>,
    indices: Seq<usize>,
    from: nat,
)
    ensures
        ({
            let after = jar_after(jar, clear_writes(base, indices, from));
            &&& forall|name: Seq<char>| #[trigger]
                after.dom().contains(name) ==> jar.dom().contains(name) && after[name] == jar[name]
            &&& forall|name: Seq<char>|
                jar.dom().contains(name) && (chunk_index(name, base) is None || chunk_index(
                    name,
                    base,
                )->0 < from) ==> #[trigger] after.dom().contains(name)
            &&& forall|i: usize|
                indices.contains(i) && i >= from ==> !after.dom().contains(
                    #[trigger] chunk_name(base, i),
                )
        }),
    decreases indices.len(),
{
    if indices.len() > 0 {
        let front = indices.drop_last();
        let last = indices.last();
        lemma_jar_after_clears(jar, base, front, from);
        law_chunk_name_is_recognized(base, last);
        let before = jar_after(jar, clear_writes(base, front, from));
        let after = jar_after(jar, clear_writes(base, indices, from));
        if last >= from {
            let w = CookieWrite::Clear(chunk_name(base, last));
            assert(clear_writes(base, indices, from).drop_last() =~= clear_writes(
                base,
                front,
                from,
            ));
            assert(after == before.remove(chunk_name(base, last)));
        } else {
            assert(after == before);
        }
        assert forall|name: Seq<char>|
            jar.dom().contains(name) && (chunk_index(name, base) is None || chunk_index(
                name,
                base,
            )->0 < from) implies #[trigger] after.dom().contains(name) by {
            assert(before.dom().contains(name));
        }
        assert forall|name: Seq<char>| #[trigger] after.dom().contains(name) implies jar.dom()
            .contains(name) && after[name] == jar[name] by {
            assert(before.dom().contains(name));
        }
        assert forall|i: usize| indices.contains(i) && i >= from implies !after.dom().contains(
            #[trigger] chunk_name(base, i),
        ) by {
            if i != last {
                let k = choose|k: int| 0 <= k < indices.len() && indices[k] == i;
                assert(front[k] == i);
                assert(front.contains(i));
                assert(!before.dom().contains(chunk_name(base, i)));
            }
        }
    }
}

proof fn lemma_chunk_indices_contains(
    pairs: Seq<(Seq<char>, Seq<char>)>,
    base: Seq<char>,
    j: int,
)
    requires
        0 <= j < pairs.len(),
        chunk_index(pairs[j].0, base) is Some,
    ensures
        chunk_indices(pairs, base).contains(chunk_index(pairs[j].0, base)->0),
    decreases pairs.len(),
{
    let front = pairs.drop_last();
    let before = chunk_indices(front, base);
    let all = chunk_indices(pairs, base);
    let i = chunk_index(pairs[j].0, base)->0;
    if j < front.len() {
        lemma_chunk_indices_contains(front, base, j);
        let k = choose|k: int| 0 <= k < before.len() && before[k] == i;
        assert(all[k] == i);
    } else {
        assert(all[all.len() - 1] == i);
    }
}

#[verifier::spinoff_prover]
proof fn lemma_chunk_map_of_jar(
    pairs: Seq<(Seq<char>, Seq<char>)>,
    base: Seq<char>,
    chunks: Map<usize, Seq<char>>,
)
    requires
        forall|j: int|
            0 <= j < pairs.len() && chunk_index((#[trigger] pairs[j]).0, base) is Some
                ==> chunks.dom().contains(chunk_index(pairs[j].0, base)->0) && pairs[j].1
                == chunks[chunk_index(pairs[j].0, base)->0],
    ensures
        chunk_map(pairs, base).submap_of(chunks),
        forall|j: int|
            0 <= j < pairs.len() && chunk_index((#[trigger] pairs[j]).0, base) is Some
                ==> chunk_map(pairs, base).dom().contains(chunk_index(pairs[j].0, base)->0),
    decreases pairs.len(),
{
    if pairs.len() > 0 {
        let front = pairs.drop_last();
        assert forall|j: int|
            0 <= j < front.len() && chunk_index((#[trigger] front[j]).0, base) is Some
                implies chunks.dom().contains(chunk_index(front[j].0, base)->0) && front[j].1
            == chunks[chunk_index(front[j].0, base)->0] by {
            assert(front[j] == pairs[j]);
        }
        lemma_chunk_map_of_jar(front, base, chunks);
        let before = chunk_map(front, base);
        let after = chunk_map(pairs, base);
        assert(pairs.last() == pairs[pairs.len() - 1]);
        assert forall|i: usize| #[trigger] after.dom().contains(i) implies chunks.dom().contains(i)
            && after[i] == chunks[i] by {
            if chunk_index(pairs.last().0, base) != Some(i) {
                assert(before.dom().contains(i) && before[i] == after[i]);
            }
        }
        assert forall|j: int|
            0 <= j < pairs.len() && chunk_index((#[trigger] pairs[j]).0, base) is Some
                implies chunk_map(pairs, base).dom().contains(chunk_index(pairs[j].0, base)->0) by {
            if j < front.len() {
                assert(front[j] == pairs[j]);
            }
        }
    }
}

proof fn lemma_joined_chunks(chunks: Map<usize, Seq<char>>, parts: Seq<Seq<char>>, n: nat)
    requires
        n <= parts.len() <= usize::MAX,
        forall|i: usize| i < n ==> #[trigger] chunks[i] == parts[i as int],
    ensures
        joined_chunks(chunks, n) == concat(parts.take(n as int)),
    decreases n,
{
    if n > 0 {
        lemma_joined_chunks(chunks, parts, (n - 1) as nat);
        assert(parts.take(n as int).drop_last() =~= parts.take(n - 1));
        assert(chunks[(n - 1) as usize] == parts[n - 1]);
    }
}

/// The chunks of a text, by index.
pub open spec fn numbered(parts: Seq<Seq<char>>) -> Map<usize, Seq<char>> {
    Map::new(|i: usize| i < parts.len(), |i: usize| parts[i as int])
}

/// Whether a request presents the cookies of a browser, but for the cookie
/// named `name`: that one may be sent as it is, be replaced by anything, or be
/// missing.
pub open spec fn presents_but_for(
    pairs: Seq<(Seq<char>, Seq<char>)>,
    jar: Map<Seq<char>, Seq<char>>,
    name: Seq<char>,
) -> bool {
    &&& forall|i: int|
        0 <= i < pairs.len() && (#[trigger] pairs[i]).0 != name ==> jar.dom().contains(pairs[i].0)
            && pairs[i].1 == jar[pairs[i].0]
    &&& forall|n: Seq<char>| #[trigger]
        jar.dom().contains(n) && n != name ==> exists|i: int|
            0 <= i < pairs.len() && (#[trigger] pairs[i]).0 == n
}

/// The three stages of a save: what its chunks leave, what its clears leave of
/// that, and the kid sidecar on top, which touches no other cookie.
#[verifier::spinoff_prover]
proof fn lemma_save_stages(
    base: Seq<char>,
    parts: Seq<Seq<char>>,
    kid: Option<Seq<char>>,
    jar: Map<Seq<char>, Seq<char>>,
    pairs: Seq<(Seq<char>, Seq<char>)>,
    name: Seq<char>,
)
    requires
        name != kid_name(base),
    ensures
        ({
            let set = jar_after(jar, chunk_writes(base, parts));
            let cleared = jar_after(
                set,
                clear_writes(base, chunk_indices(pairs, base), parts.len()),
            );
            let after = jar_after(jar, save_writes(base, parts, kid, pairs));
            &&& after.dom().contains(name) <==> cleared.dom().contains(name)
            &&& after[name] == cleared[name]
        }),
{
    let sets = chunk_writes(base, parts);
    let clears = clear_writes(base, chunk_indices(pairs, base), parts.len());
    let writes = save_writes(base, parts, kid, pairs);
    assert(writes.drop_last() =~= sets + clears);
    assert(writes.last() == kid_write(base, kid));
    lemma_jar_append(jar, sets, clears);
}

/// A save sets every chunk of the new session.
#[verifier::spinoff_prover]
proof fn lemma_save_sets_chunk(
    base: Seq<char>,
    parts: Seq<Seq<char>>,
    kid: Option<Seq<char>>,
    jar: Map<Seq<char>, Seq<char>>,
    pairs: Seq<(Seq<char>, Seq<char>)>,
    i: usize,
)
    requires
        i < parts.len() <= usize::MAX,
    ensures
        ({
            let after = jar_after(jar, save_writes(base, parts, kid, pairs));
            &&& after.dom().contains(chunk_name(base, i))
            &&& after[chunk_name(base, i)] == parts[i as int]
        }),
{
    let n = parts.len();
    let name = chunk_name(base, i);
    let sets = chunk_writes(base, parts);
    let indices = chunk_indices(pairs, base);
    law_kid_sidecar_is_no_chunk(base);
    law_chunk_name_is_recognized(base, i);
    lemma_save_stages(base, parts, kid, jar, pairs, name);
    assert(sets.take(n as int) =~= sets);
    lemma_jar_after_chunks(jar, base, parts, n as int);
    let set = jar_after(jar, sets);
    assert(set.dom().contains(name) && set[name] == parts[i as int]);
    lemma_jar_after_clears(set, base, indices, n);
    assert(jar_after(set, clear_writes(base, indices, n)).dom().contains(name));
}

/// A save leaves no chunk slot but those of the new session.
#[verifier::spinoff_prover]
proof fn lemma_save_leaves_no_other_slot(
    base: Seq<char>,
    parts: Seq<Seq<char>>,
    kid: Option<Seq<char>>,
    jar: Map<Seq<char>, Seq<char>>,
    pairs: Seq<(Seq<char>, Seq<char>)>,
    name: Seq<char>,
)
    requires
        parts.len() <= usize::MAX,
        canonical_slots(jar, base),
        presents(pairs, jar),
        chunk_index(name, base) is Some,
        jar_after(jar, save_writes(base, parts, kid, pairs)).dom().contains(name),
    ensures
        chunk_index(name, base)->0 < parts.len(),
        name == chunk_name(base, chunk_index(name, base)->0),
{
    let n = parts.len();
    let i = chunk_index(name, base)->0;
    let sets = chunk_writes(base, parts);
    let indices = chunk_indices(pairs, base);
    law_kid_sidecar_is_no_chunk(base);
    lemma_save_stages(base, parts, kid, jar, pairs, name);
    assert(sets.take(n as int) =~= sets);
    lemma_jar_after_chunks(jar, base, parts, n as int);
    let set = jar_after(jar, sets);
    lemma_jar_after_clears(set, base, indices, n);
    let cleared = jar_after(set, clear_writes(base, indices, n));
    assert(cleared.dom().contains(name));
    assert(set.dom().contains(name));
    if name != chunk_name(base, i) {
        assert(jar.dom().contains(name));
    }
    if i >= n {
        assert(jar.dom().contains(name));
        let j = choose|j: int| 0 <= j < pairs.len() && (#[trigger] pairs[j]).0 == name;
        lemma_chunk_indices_contains(pairs, base, j);
        assert(!cleared.dom().contains(chunk_name(base, i)));
    }
}

/// A save leaves the cookies that are not the session's alone.
#[verifier::spinoff_prover]
proof fn lemma_save_keeps_unrelated(
    base: Seq<char>,
    parts: Seq<Seq<char>>,
    kid: Option<Seq<char>>,
    jar: Map<Seq<char>, Seq<char>>,
    pairs: Seq<(Seq<char>, Seq<char>)>,
    name: Seq<char>,
)
    requires
        parts.len() <= usize::MAX,
        is_unrelated(name, base),
    ensures
        ({
            let after = jar_after(jar, save_writes(base, parts, kid, pairs));
            &&& jar.dom().contains(name) <==> after.dom().contains(name)
            &&& jar[name] == after[name]
        }),
{
    let n = parts.len();
    let sets = chunk_writes(base, parts);
    let indices = chunk_indices(pairs, base);
    lemma_save_stages(base, parts, kid, jar, pairs, name);
    assert(sets.take(n as int) =~= sets);
    lemma_jar_after_chunks(jar, base, parts, n as int);
    let set = jar_after(jar, sets);
    assert(set.dom().contains(name) <==> jar.dom().contains(name));
    lemma_jar_after_clears(set, base, indices, n);
    let cleared = jar_after(set, clear_writes(base, indices, n));
    if set.dom().contains(name) {
        assert(cleared.dom().contains(name));
    }
    if cleared.dom().contains(name) {
        assert(set.dom().contains(name));
    }
    lemma_clears_keep_values(set, base, indices, n, name);
}

proof fn lemma_save_keeps_all_unrelated(
    base: Seq<char>,
    parts: Seq<Seq<char>>,
    kid: Option<Seq<char>>,
    jar: Map<Seq<char>, Seq<char>>,
    pairs: Seq<(Seq<char>, Seq<char>)>,
)
    requires
        parts.len() <= usize::MAX,
    ensures
        keeps_unrelated(jar, jar_after(jar, save_writes(base, parts, kid, pairs)), base),
{
    let after = jar_after(jar, save_writes(base, parts, kid, pairs));
    assert forall|name: Seq<char>|
        #![trigger after.dom().contains(name)]
        is_unrelated(name, base) implies (jar.dom().contains(name) <==> after.dom().contains(name))
        && jar[name] == after[name] by {
        lemma_save_keeps_unrelated(base, parts, kid, jar, pairs, name);
    }
}

/// The chunks of a request that presents a saved session, whatever it says of
/// the kid sidecar.
#[verifier::spinoff_prover]
proof fn lemma_saved_chunk_map(
    base: Seq<char>,
    parts: Seq<Seq<char>>,
    kid: Option<Seq<char>>,
    jar: Map<Seq<char>, Seq<char>>,
    pairs: Seq<(Seq<char>, Seq<char>)>,
    later: Seq<(Seq<char>, Seq<char>)>,
)
    requires
        parts.len() <= usize::MAX,
        canonical_slots(jar, base),
        presents(pairs, jar),
        presents_but_for(
            later,
            jar_after(jar, save_writes(base, parts, kid, pairs)),
            kid_name(base),
        ),
    ensures
        chunk_map(later, base) == numbered(parts),
{
    let after = jar_after(jar, save_writes(base, parts, kid, pairs));
    let map = numbered(parts);
    law_kid_sidecar_is_no_chunk(base);
    assert forall|j: int|
        0 <= j < later.len() && chunk_index((#[trigger] later[j]).0, base) is Some
            implies map.dom().contains(chunk_index(later[j].0, base)->0) && later[j].1
        == map[chunk_index(later[j].0, base)->0] by {
        let name = later[j].0;
        assert(name != kid_name(base));
        assert(after.dom().contains(name));
        lemma_save_leaves_no_other_slot(base, parts, kid, jar, pairs, name);
        lemma_save_sets_chunk(base, parts, kid, jar, pairs, chunk_index(name, base)->0);
    }
    lemma_chunk_map_of_jar(later, base, map);
    assert forall|i: usize| i < parts.len() implies #[trigger] chunk_map(
        later,
        base,
    ).dom().contains(i) by {
        let name = chunk_name(base, i);
        law_chunk_name_is_recognized(base, i);
        lemma_save_sets_chunk(base, parts, kid, jar, pairs, i);
        assert(after.dom().contains(name) && name != kid_name(base));
        let j = choose|j: int| 0 <= j < later.len() && (#[trigger] later[j]).0 == name;
        assert(chunk_index(later[j].0, base) == Some(i));
    }
    assert(chunk_map(later, base) =~= map);
}

/// A saved session is what the next request loads, whatever chunk slots the
/// browser held before, and whatever became of the kid sidecar since: the new
/// chunks are set and every stale slot is cleared. Cookies that are not the
/// session's are left alone.
#[verifier::spinoff_prover]
pub proof fn law_saved_session_reads_back(
    base: Seq<char>,
    text: Seq<char>,
    kid: Option<Seq<char>>,
    jar: Map<Seq<char>, Seq<char>>,
    pairs: Seq<(Seq<char>, Seq<char>)>,
    later: Seq<(Seq<char>, Seq<char>)>,
)
    requires
        text.len() > 0,
        chunks_of(text).len() <= usize::MAX,
        canonical_slots(jar, base),
        presents(pairs, jar),
        presents_but_for(
            later,
            jar_after(jar, save_writes(base, chunks_of(text), kid, pairs)),
            kid_name(base),
        ),
    ensures
        chunk_map(later, base) == numbered(chunks_of(text)),
        reassembled(chunk_map(later, base)) == Some(text),
        keeps_unrelated(
            jar,
            jar_after(jar, save_writes(base, chunks_of(text), kid, pairs)),
            base,
        ),
{
    let parts = chunks_of(text);
    let n = parts.len();
    law_chunks_reassemble(text);
    lemma_saved_chunk_map(base, parts, kid, jar, pairs, later);
    lemma_first_gap(numbered(parts), 0, n);
    lemma_joined_chunks(numbered(parts), parts, n);
    assert(parts.take(n as int) =~= parts);
    lemma_save_keeps_all_unrelated(base, parts, kid, jar, pairs);
}

proof fn lemma_clears_keep_values(
    jar: Map<Seq<char>, Seq<char>>,
    base: Seq<char>,
    indices: Seq<usize>,
    from: nat,
    name: Seq<char>,
)
    requires
        chunk_index(name, base) is None,
    ensures
        jar_after(jar, clear_writes(base, indices, from))[name] == jar[name],
    decreases indices.len(),
{
    if indices.len() > 0 {
        let front = indices.drop_last();
        lemma_clears_keep_values(jar, base, front, from, name);
        law_chunk_name_is_recognized(base, indices.last());
        if indices.last() >= from {
            assert(clear_writes(base, indices, from).drop_last() =~= clear_writes(
                base,
                front,
                from,
            ));
        }
    }
}

/// A delete leaves nothing of the session in the browser: no chunk slot and no
/// kid sidecar. Cookies that are not the session's stay.
#[verifier::spinoff_prover]
pub proof fn law_delete_clears_every_slot(
    base: Seq<char>,
    jar: Map<Seq<char>, Seq<char>>,
    pairs: Seq<(Seq<char>, Seq<char>)>,
)
    requires
        canonical_slots(jar, base),
        presents(pairs, jar),
    ensures
        forall|name: Seq<char>|
            #![trigger jar_after(jar, delete_writes(base, pairs)).dom().contains(name)]
            jar_after(jar, delete_writes(base, pairs)).dom().contains(name) <==> jar.dom().contains(
                name,
            ) && is_unrelated(name, base),
        forall|name: Seq<char>|
            #![trigger jar_after(jar, delete_writes(base, pairs))[name]]
            is_unrelated(name, base) && jar.dom().contains(name) ==> jar_after(
                jar,
                delete_writes(base, pairs),
            )[name] == jar[name],
{
    let indices = chunk_indices(pairs, base);
    let kid = CookieWrite::Clear(kid_name(base));
    let clears = clear_writes(base, indices, 0);
    law_kid_sidecar_is_no_chunk(base);
    lemma_jar_append(jar, seq![kid], clears);
    assert(seq![kid].drop_last() =~= Seq::<CookieWrite>::empty());
    let jar1 = jar_after(jar, seq![kid]);
    assert(jar_after(jar, seq![kid].drop_last()) == jar);
    assert(jar1 == jar.remove(kid_name(base)));
    lemma_jar_after_clears(jar1, base, indices, 0);
    let jar2 = jar_after(jar, delete_writes(base, pairs));
    assert(delete_writes(base, pairs) =~= seq![kid] + clears);
    assert(jar2 == jar_after(jar1, clears));
    assert forall|name: Seq<char>| is_unrelated(name, base) && jar.dom().contains(
        name,
    ) implies #[trigger] jar2[name] == jar[name] by {
        assert(jar1.dom().contains(name));
        assert(jar2.dom().contains(name));
    }
    assert forall|name: Seq<char>|
        #![trigger jar2.dom().contains(name)]
        jar2.dom().contains(name) <==> jar.dom().contains(name) && is_unrelated(name, base) by {
        if jar2.dom().contains(name) {
            assert(jar1.dom().contains(name));
            if chunk_index(name, base) is Some {
                let j = choose|j: int| 0 <= j < pairs.len() && (#[trigger] pairs[j]).0 == name;
                lemma_chunk_indices_contains(pairs, base, j);
                assert(!jar2.dom().contains(chunk_name(base, chunk_index(name, base)->0)));
            }
        }
        if jar.dom().contains(name) && is_unrelated(name, base) {
            assert(jar1.dom().contains(name));
        }
    }
}

/// A session sealed into `bundle` and saved is found again by the next
/// request: its cookies yield the very same bundle, whatever became of the kid
/// sidecar.
pub proof fn law_saved_bundle_is_found(
    store: CookieStoreView,
    bundle: Seq<u8>,
    kid: Option<Seq<char>>,
    jar: Map<Seq<char>, Seq<char>>,
    pairs: Seq<(Seq<char>, Seq<char>)>,
    later: HeaderMap,
)
    requires
        base64url_bytes(base64url(bundle)) == Some(bundle),
        base64url(bundle).len() == base64_len(bundle.len()),
        bundle.len() > 0,
        chunks_of(base64url(bundle)).len() <= store.max_chunks,
        canonical_slots(jar, store.sealer.wire_name()),
        presents(pairs, jar),
        presents_but_for(
            request_cookies(later),
            jar_after(
                jar,
                save_writes(
                    store.sealer.wire_name(),
                    chunks_of(base64url(bundle)),
                    kid,
                    pairs,
                ),
            ),
            kid_name(store.sealer.wire_name()),
        ),
    ensures
        store.found(later) == FoundCookie::Sealed(bundle),
{
    law_saved_session_reads_back(
        store.sealer.wire_name(),
        base64url(bundle),
        kid,
        jar,
        pairs,
        request_cookies(later),
    );
}

/// Whether a bundle saved in answer to a request with the cookies `pairs` is
/// found again: by every later request of the browser that sent them, whatever
/// became of the kid sidecar.
pub open spec fn reads_back(
    store: CookieStoreView,
    bundle: Seq<u8>,
    kid: Option<Seq<char>>,
    pairs: Seq<(Seq<char>, Seq<char>)>,
) -> bool {
    let base = store.sealer.wire_name();
    let writes = save_writes(base, chunks_of(base64url(bundle)), kid, pairs);
    forall|jar: Map<Seq<char>, Seq<char>>, later: HeaderMap|
        canonical_slots(jar, base) && presents(pairs, jar) && #[trigger] presents_but_for(
            request_cookies(later),
            jar_after(jar, writes),
            kid_name(base),
        ) ==> store.found(later) == FoundCookie::Sealed(bundle)
}

proof fn lemma_saved_bundle_reads_back(
    store: CookieStoreView,
    bundle: Seq<u8>,
    kid: Option<Seq<char>>,
    pairs: Seq<(Seq<char>, Seq<char>)>,
)
    requires
        base64url_bytes(base64url(bundle)) == Some(bundle),
        base64url(bundle).len() == base64_len(bundle.len()),
        bundle.len() > 0,
        chunks_of(base64url(bundle)).len() <= store.max_chunks,
    ensures
        reads_back(store, bundle, kid, pairs),
{
    let base = store.sealer.wire_name();
    let writes = save_writes(base, chunks_of(base64url(bundle)), kid, pairs);
    assert forall|jar: Map<Seq<char>, Seq<char>>, later: HeaderMap|
        canonical_slots(jar, base) && presents(pairs, jar) && #[trigger] presents_but_for(
            request_cookies(later),
            jar_after(jar, writes),
            kid_name(base),
        ) implies store.found(later) == FoundCookie::Sealed(bundle) by {
        law_saved_bundle_is_found(store, bundle, kid, jar, pairs, later);
    }
}

/// A saved session loads back: where the cipher opens what it sealed, and the
/// payload decodes to what was encoded, the next request loads the very
/// session, with the kid sidecar as saved, replaced by anything, or missing.
pub proof fn law_saved_session_loads<C>(
    store: CookieStoreView,
    session: C,
    payload: Seq<u8>,
    bundle: Seq<u8>,
    kid: Option<Seq<char>>,
    jar: Map<Seq<char>, Seq<char>>,
    pairs: Seq<(Seq<char>, Seq<char>)>,
    later: HeaderMap,
    opens: spec_fn(Option<Seq<char>>, Seq<u8>, Seq<u8>) -> Option<Seq<u8>>,
    decodes: spec_fn(Seq<u8>) -> Option<C>,
)
    requires
        base64url_bytes(base64url(bundle)) == Some(bundle),
        base64url(bundle).len() == base64_len(bundle.len()),
        bundle.len() > 0,
        chunks_of(base64url(bundle)).len() <= store.max_chunks,
        canonical_slots(jar, store.sealer.wire_name()),
        presents(pairs, jar),
        presents_but_for(
            request_cookies(later),
            jar_after(
                jar,
                save_writes(
                    store.sealer.wire_name(),
                    chunks_of(base64url(bundle)),
                    kid,
                    pairs,
                ),
            ),
            kid_name(store.sealer.wire_name()),
        ),
        opens(None, bundle, store.session_aad()) == Some(payload),
        forall|hint: Option<Seq<char>>| #[trigger]
            opens(hint, bundle, store.session_aad()) matches Some(p) ==> p == payload,
        decodes(payload) == Some(session),
    ensures
        store.loads(later, opens, decodes) == Some(session),
{
    law_saved_bundle_is_found(store, bundle, kid, jar, pairs, later);
    let hint = request_kid(later, store.sealer.wire_name());
    assert(opens(hint, bundle, store.session_aad()) matches Some(p) ==> p == payload);
}

// -- Laws of the store's operations --

/// A session is saved exactly when its encoded bundle fits into the chunk
/// budget, 3800 characters to a chunk; otherwise nothing is written and the
/// store is to blame.
pub proof fn law_session_is_saved_within_its_budget(
    store: CookieSessionStore,
    bundle: &[u8],
    kid: Option<&str>,
    request_headers: HeaderMap,
    r: Result<SavedCookies, SessionError>,
)
    requires
        base64_len(bundle@.len()) <= isize::MAX,
        kid matches Some(k) ==> base64_len(encode_utf8(k@).len()) <= isize::MAX,
        call_ensures(
            CookieSessionStore::save_session,
            (&store, bundle, kid, &request_headers),
            r,
        ),
    ensures
        r is Ok <==> base64url(bundle@).len() <= 3800 * store@.max_chunks,
        r matches Err(e) ==> e@.kind is Store,
{
    law_chunks_reassemble(base64url(bundle@));
}

/// What a save writes: one cookie per chunk, in order, which together are the
/// encoded bundle, and last the kid sidecar, set where there is a key identity
/// and cleared where there is none.
pub proof fn law_save_writes_the_bundle(
    store: CookieSessionStore,
    bundle: &[u8],
    kid: Option<&str>,
    request_headers: HeaderMap,
    saved: SavedCookies,
    parts: Seq<Seq<char>>,
    i: int,
)
    requires
        base64_len(bundle@.len()) <= isize::MAX,
        kid matches Some(k) ==> base64_len(encode_utf8(k@).len()) <= isize::MAX,
        call_ensures(
            CookieSessionStore::save_session,
            (&store, bundle, kid, &request_headers),
            Ok::<SavedCookies, SessionError>(saved),
        ),
        parts == chunks_of(base64url(bundle@)),
        0 <= i < parts.len(),
    ensures
        concat(parts) == base64url(bundle@),
        saved.headers@.len() > parts.len(),
        saved.headers@[i]@ == store@.sealer.wire_name() + "."@ + decimal(i as nat) + "="@ + parts[i]
            + "; "@ + crate::cookie::guarded_for_its_time(store@.sealer),
        ({
            let last = saved.headers@[saved.headers@.len() - 1]@;
            &&& kid is None ==> last == store@.sealer.wire_name() + ".kid"@ + "=; "@
                + crate::cookie::guarded(store@.sealer.secure, store@.sealer.path) + "; Max-Age=0"@
            &&& kid matches Some(k) ==> last == store@.sealer.wire_name() + ".kid"@ + "="@
                + base64url(encode_utf8(k@)) + "; "@ + crate::cookie::guarded_for_its_time(
                store@.sealer,
            )
        }),
        forall|n: int|
            parts.len() <= n < saved.headers@.len() - 1 ==> "; Max-Age=0"@.is_suffix_of(
                #[trigger] saved.headers@[n]@,
            ),
{
    let base = store@.sealer.wire_name();
    let sealer = store@.sealer;
    let pairs = request_cookies(request_headers);
    law_chunks_reassemble(base64url(bundle@));
    let writes = save_writes(base, parts, opt_str(kid), pairs);
    let clears = clear_writes(base, chunk_indices(pairs, base), parts.len());
    let all = texts(saved.headers@);
    assert(all.len() == saved.headers@.len());
    assert(all == write_texts(writes, sealer));
    assert(writes.len() == parts.len() + clears.len() + 1);
    assert(writes[i] == CookieWrite::Store(chunk_name(base, i as usize), parts[i]));
    assert(all[i] == saved.headers@[i]@);
    crate::cookie::lemma_guards(sealer.secure, sealer.path);
    assert(all[all.len() - 1] == saved.headers@[saved.headers@.len() - 1]@);
    assert forall|n: int|
        parts.len() <= n < saved.headers@.len() - 1 implies "; Max-Age=0"@.is_suffix_of(
        #[trigger] saved.headers@[n]@,
    ) by {
        let w = clears[n - parts.len()];
        lemma_clear_writes_clear(
            base,
            chunk_indices(pairs, base),
            parts.len(),
            n - parts.len(),
        );
        assert(writes[n] == w);
        assert(all[n] == saved.headers@[n]@);
        crate::cookie::lemma_clear_cookie_ends(w->Clear_0, sealer.base_attrs());
    }
}

proof fn lemma_clear_writes_clear(base: Seq<char>, indices: Seq<usize>, from: nat, n: int)
    requires
        0 <= n < clear_writes(base, indices, from).len(),
    ensures
        clear_writes(base, indices, from)[n] is Clear,
    decreases indices.len(),
{
    if indices.len() > 0 {
        let before = clear_writes(base, indices.drop_last(), from);
        if n < before.len() {
            lemma_clear_writes_clear(base, indices.drop_last(), from, n);
        }
    }
}

/// A delete answers with nothing but clears, the kid sidecar's among them.
pub proof fn law_delete_only_clears(
    store: CookieSessionStore,
    request_headers: HeaderMap,
    headers: Vec<String>,
)
    requires
        call_ensures(CookieSessionStore::delete_headers, (&store, &request_headers), headers),
    ensures
        headers@.len() > 0,
        (store@.sealer.wire_name() + ".kid"@ + "=; "@).is_prefix_of(headers@[0]@),
        forall|n: int|
            0 <= n < headers@.len() ==> "; Max-Age=0"@.is_suffix_of(#[trigger] headers@[n]@),
{
    let base = store@.sealer.wire_name();
    let sealer = store@.sealer;
    let indices = chunk_indices(request_cookies(request_headers), base);
    let writes = delete_writes(base, request_cookies(request_headers));
    let all = texts(headers@);
    assert(all.len() == headers@.len());
    assert(all == write_texts(writes, sealer));
    assert(all[0] == headers@[0]@);
    crate::cookie::lemma_clear_cookie_ends(kid_name(base), sealer.base_attrs());
    assert forall|n: int| 0 <= n < headers@.len() implies "; Max-Age=0"@.is_suffix_of(
        #[trigger] headers@[n]@,
    ) by {
        assert(all[n] == headers@[n]@);
        if n > 0 {
            lemma_clear_writes_clear(base, indices, 0, n - 1);
            assert(writes[n] == clear_writes(base, indices, 0)[n - 1]);
            crate::cookie::lemma_clear_cookie_ends(writes[n]->Clear_0, sealer.base_attrs());
        }
    }
}

/// A load opens a bundle exactly where the request carries a chunk 0 and its
/// chunks up to the first gap decode, with the data the session was sealed
/// with; without a chunk 0 there is no session.
pub proof fn law_load_needs_the_first_chunk(
    store: CookieSessionStore,
    headers: HeaderMap,
    chunks: HashMap<usize, String>,
    text: Option<String>,
    load: CookieLoad,
)
    requires
        call_ensures(CookieSessionStore::load_session, (&store, &headers), load),
        call_ensures(CookieSessionStore::collect_session_chunks, (&store, &headers), chunks),
        call_ensures(reassemble_chunks, (&chunks,), text),
    ensures
        load is Absent <==> !chunks@.dom().contains(0),
        text matches Some(t) ==> {
            &&& load is Malformed <==> base64url_bytes(t@) is None
            &&& load is Unseal ==> base64url_bytes(t@) == Some(load->bundle@)
        },
        load is Unseal ==> load->aad@ == encode_utf8("session"@ + ":"@ + store@.sealer.wire_name()),
{
    assert(chunk_texts(chunks@).dom().contains(0) <==> chunks@.dom().contains(0));
}

/// Numbered chunks are put together in order up to the first gap.
pub proof fn law_chunks_are_joined_in_order(
    chunks: HashMap<usize, String>,
    parts: Seq<Seq<char>>,
    r: Option<String>,
)
    requires
        call_ensures(reassemble_chunks, (&chunks,), r),
        parts.len() <= usize::MAX,
        forall|i: usize|
            i < parts.len() ==> #[trigger] chunks@.dom().contains(i) && chunks@[i]@
                == parts[i as int],
        parts.len() < usize::MAX ==> !chunks@.dom().contains(parts.len() as usize),
        parts.len() == usize::MAX ==> !chunks@.dom().contains(usize::MAX),
    ensures
        parts.len() == 0 ==> r is None,
        parts.len() > 0 ==> r is Some && r->0@ == concat(parts),
{
    let m = chunk_texts(chunks@);
    let n = parts.len();
    assert forall|k: usize| 0 <= k < n implies #[trigger] m.dom().contains(k) by {
        assert(chunks@.dom().contains(k));
    }
    assert forall|i: usize| i < n implies #[trigger] m[i] == parts[i as int] by {
        assert(chunks@.dom().contains(i));
    }
    if n > 0 {
        assert(m.dom().contains(0));
        lemma_first_gap(m, 0, n);
        lemma_joined_chunks(m, parts, n);
        assert(parts.take(n as int) =~= parts);
    }
}

/// Only a bundle that opens to a session is one.
pub proof fn law_only_an_opened_session_loads<C>(
    store: CookieSessionStore,
    kid: Option<&str>,
    matches_key: bool,
    opened: Option<Option<C>>,
    r: (Option<C>, Counter),
)
    requires
        call_ensures(
            CookieSessionStore::finish_load::<C>,
            (&store, kid, matches_key, opened),
            r,
        ),
    ensures
        opened matches Some(Some(session)) ==> r.0 == Some(session),
        opened is None || opened->0 is None ==> r.0 is None,
        r.1@.name == "huskarl.session_cookie.decrypt"@,
        r.1@.labels.len() >= 3,
        r.1@.labels[2] == (
            "outcome"@,
            if opened is None {
                "decrypt_failed"@
            } else if opened->0 is None {
                "payload_invalid"@
            } else {
                "ok"@
            },
        ),
{
}

/// A new cookie session is what its login says, capped by what was stamped onto
/// the store.
pub proof fn law_new_cookie_session_is_its_login(
    store: CookieSessionStore,
    completed: CompletedLogin,
    default_lifetime: Duration,
    now: Timestamp,
    seed: SessionState,
    same: SessionState,
)
    requires
        call_ensures(CookieSessionStore::seed, (&store, &completed, default_lifetime, now), seed),
        call_ensures(
            SessionState::from_completed,
            (&completed, default_lifetime, store@.max_lifetime, now),
            same,
        ),
    ensures
        seed == same,
{
}

/// A store keeps the settings it is given; its budget is at least one chunk.
pub proof fn law_store_keeps_its_settings(
    cookie_name: CookieName,
    cookie_path: RoutePath,
    max_age: Duration,
    max_chunks: usize,
    s: CookieSessionStore,
)
    requires
        call_ensures(
            CookieSessionStore::new,
            (cookie_name, cookie_path, max_age, max_chunks),
            s,
        ),
    ensures
        s@.sealer.name == cookie_name@,
        s@.sealer.path == cookie_path@,
        s@.sealer.max_age == max_age,
        s@.sealer.secure,
        max_chunks >= 1 ==> s@.max_chunks == max_chunks,
        max_chunks == 0 ==> s@.max_chunks == 1,
        s@.max_lifetime is None,
{
}

/// Only a cookie named after the session, a dot and an index is a chunk, and it
/// is the chunk of that index; blanks around the name do not matter.
pub proof fn law_chunks_are_named_by_index(
    store: CookieSessionStore,
    name: &str,
    number: &str,
    index: Option<usize>,
    r: Option<usize>,
)
    requires
        call_ensures(CookieSessionStore::parse_chunk_index, (&store, name), r),
        call_ensures(parse_index, (number,), index),
    ensures
        trimmed(name@) == store@.sealer.wire_name() + "."@ + number@ ==> r == index,
        !(store@.sealer.wire_name() + "."@).is_prefix_of(trimmed(name@)) ==> r is None,
{
    reveal_strlit(".");
    let base = store@.sealer.wire_name();
    let whole = trimmed(name@);
    if whole == base + "."@ + number@ {
        assert(whole.subrange(0, base.len() as int) =~= base);
        assert(whole.skip(base.len() as int) =~= "."@ + number@);
        assert(("."@ + number@).subrange(0, 1) =~= "."@);
        assert(("."@ + number@).skip(1) =~= number@);
    }
    if r is Some {
        let suffix = whole.skip(base.len() as int);
        assert(base == whole.subrange(0, base.len() as int));
        assert("."@ == suffix.subrange(0, 1));
        assert((base + "."@) =~= whole.subrange(0, base.len() as int + 1)) by {
            assert(suffix.subrange(0, 1)[0] == whole[base.len() as int]);
        }
    }
}

/// A session is sealed with its purpose and the name of its cookie, lives in
/// cookies for 400 days and in two chunks by default, and a stamped policy keeps
/// its budget.
pub proof fn law_cookie_store_defaults(
    cookie_name: CookieName,
    cookie_path: RoutePath,
    by_default: CookieSessionStore,
    aad: Vec<u8>,
    name: &str,
    config: crate::config::LoginConfig,
    metrics_name: Option<&str>,
    e: crate::engine::base::LoginEngine<CookieSessionStore>,
)
    requires
        call_ensures(CookieSessionStore::with_defaults, (cookie_name, cookie_path), by_default),
        call_ensures(CookieSessionStore::session_aad, (&by_default,), aad),
        call_ensures(CookieSessionStore::cookie_name, (&by_default,), name),
        call_ensures(
            crate::engine::base::LoginEngine::<CookieSessionStore>::new,
            (config, by_default, metrics_name),
            e,
        ),
    ensures
        by_default@.sealer.name == cookie_name@,
        by_default@.sealer.path == cookie_path@,
        by_default@.sealer.max_age.nanos == 400 * 24 * 3600 * 1_000_000_000int,
        by_default@.max_chunks == 2,
        aad@ == encode_utf8("session"@ + ":"@ + name@),
        e.session_store@.max_chunks == 2,
        e.session_store@.sealer.name == cookie_name@,
        config.session_lifetime matches crate::config::SessionLifetime::Bounded(cap)
            ==> e.session_store@.max_lifetime == Some(cap),
        config.session_lifetime is DelegatedToAuthorizationServer
            ==> e.session_store@.max_lifetime is None,
{
}

proof fn lemma_last_chunk_counts(
    pairs: Seq<(Seq<char>, Seq<char>)>,
    base: Seq<char>,
    at: int,
    i: usize,
)
    requires
        0 <= at < pairs.len(),
        chunk_index(pairs[at].0, base) == Some(i),
        forall|k: int|
            at < k < pairs.len() ==> chunk_index((#[trigger] pairs[k]).0, base) != Some(i),
    ensures
        chunk_map(pairs, base).dom().contains(i),
        chunk_map(pairs, base)[i] == pairs[at].1,
    decreases pairs.len(),
{
    if at < pairs.len() - 1 {
        let front = pairs.drop_last();
        assert forall|k: int| at < k < front.len() implies chunk_index(
            (#[trigger] front[k]).0,
            base,
        ) != Some(i) by {
            assert(front[k] == pairs[k]);
        }
        assert(pairs[pairs.len() - 1] == pairs.last());
        lemma_last_chunk_counts(front, base, at, i);
    }
}

proof fn lemma_chunks_come_from_cookies(
    pairs: Seq<(Seq<char>, Seq<char>)>,
    base: Seq<char>,
    i: usize,
)
    requires
        chunk_map(pairs, base).dom().contains(i),
    ensures
        exists|k: int|
            0 <= k < pairs.len() && chunk_index((#[trigger] pairs[k]).0, base) == Some(i),
    decreases pairs.len(),
{
    if chunk_index(pairs.last().0, base) == Some(i) {
        assert(chunk_index(pairs[pairs.len() - 1].0, base) == Some(i));
    } else {
        let front = pairs.drop_last();
        lemma_chunks_come_from_cookies(front, base, i);
        let k = choose|k: int|
            0 <= k < front.len() && chunk_index((#[trigger] front[k]).0, base) == Some(i);
        assert(front[k] == pairs[k]);
    }
}

/// A request has a chunk exactly where it has a cookie of that index, and of
/// several the last counts.
pub proof fn law_last_chunk_counts(
    store: CookieSessionStore,
    headers: HeaderMap,
    at: int,
    i: usize,
    chunks: HashMap<usize, String>,
)
    requires
        call_ensures(CookieSessionStore::collect_session_chunks, (&store, &headers), chunks),
    ensures
        ({
            let pairs = request_cookies(headers);
            let base = store@.sealer.wire_name();
            &&& chunks@.dom().contains(i) ==> exists|k: int|
                0 <= k < pairs.len() && chunk_index((#[trigger] pairs[k]).0, base) == Some(i)
            &&& 0 <= at < pairs.len() && chunk_index(pairs[at].0, base) == Some(i) && (forall|k: int|
                at < k < pairs.len() ==> chunk_index((#[trigger] pairs[k]).0, base) != Some(i))
                ==> chunks@.dom().contains(i) && chunks@[i]@ == pairs[at].1
        }),
{
    let pairs = request_cookies(headers);
    let base = store@.sealer.wire_name();
    let m = chunk_texts(chunks@);
    assert(m.dom().contains(i) <==> chunks@.dom().contains(i));
    if chunks@.dom().contains(i) {
        lemma_chunks_come_from_cookies(pairs, base, i);
    }
    if 0 <= at < pairs.len() && chunk_index(pairs[at].0, base) == Some(i) && (forall|k: int|
        at < k < pairs.len() ==> chunk_index((#[trigger] pairs[k]).0, base) != Some(i)) {
        lemma_last_chunk_counts(pairs, base, at, i);
        assert(m[i] == chunks@[i]@);
    }
}

/// A malformed session cookie is counted as badly encoded, and a chunk pair is
/// read as a cookie is.
pub proof fn law_malformed_cookies_are_counted(
    store: CookieSessionStore,
    kid: Option<&str>,
    matches_key: bool,
    c: Counter,
    pair: &str,
    read: Option<(usize, String)>,
)
    requires
        call_ensures(CookieSessionStore::record_malformed_load, (&store, kid, matches_key), c),
        call_ensures(CookieSessionStore::parse_chunk_pair, (&store, pair), read),
    ensures
        c@.name == "huskarl.session_cookie.decrypt"@,
        c@.labels[2] == ("outcome"@, "bad_encoding"@),
        read is Some <==> pair_in(pair@) is Some && chunk_index(
            (pair_in(pair@)->0).0,
            store@.sealer.wire_name(),
        ) is Some,
        read matches Some((i, value)) ==> {
            &&& chunk_index((pair_in(pair@)->0).0, store@.sealer.wire_name()) == Some(i)
            &&& value@ == (pair_in(pair@)->0).1
        },
{
}

/// An encoded session is split into chunks of 3800 characters, the last one
/// possibly shorter, that together are the session.
pub proof fn law_split_session_is_whole(value: &str, chunks: Vec<String>)
    requires
        call_ensures(split_into_chunks, (value,), chunks),
    ensures
        concat(texts(chunks@)) == value@,
        forall|i: int| 0 <= i < chunks@.len() ==> 0 < (#[trigger] chunks@[i])@.len() <= 3800,
        forall|i: int| 0 <= i < chunks@.len() - 1 ==> (#[trigger] chunks@[i])@.len() == 3800,
{
    law_chunks_reassemble(value@);
    lemma_chunks_are_full(value@);
    assert forall|i: int| 0 <= i < chunks@.len() implies 0 < (#[trigger] chunks@[i])@.len()
        <= 3800 by {
        assert(texts(chunks@)[i] == chunks@[i]@);
    }
    assert forall|i: int| 0 <= i < chunks@.len() - 1 implies (#[trigger] chunks@[i])@.len()
        == 3800 by {
        assert(texts(chunks@)[i] == chunks@[i]@);
    }
}

proof fn lemma_chunks_are_full(s: Seq<char>)
    ensures
        forall|i: int|
            0 <= i < chunks_of(s).len() - 1 ==> (#[trigger] chunks_of(s)[i]).len() == CHUNK_SIZE,
    decreases s.len(),
{
    if s.len() > CHUNK_SIZE {
        let rest = s.skip(CHUNK_SIZE as int);
        lemma_chunks_are_full(rest);
        assert forall|i: int| 0 <= i < chunks_of(s).len() - 1 implies (#[trigger] chunks_of(
            s,
        )[i]).len() == CHUNK_SIZE by {
            if i > 0 {
                assert(chunks_of(s)[i] == chunks_of(rest)[i - 1]);
            }
        }
    }
}

} // verus!
