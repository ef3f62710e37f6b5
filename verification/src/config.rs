//! The service's configuration, as far as the library reads it, and the
//! reading of a comma-separated list of database nodes.
use crate::domain::AppConfig;
use crate::text::split_on;
use vstd::prelude::*;
use vstd::string::*;

verus! {

/// Where the cache servers are.
#[derive(Debug)]
pub struct RedisConfig {
    pub urls: Vec<String>,
}

/// Where the queue brokers are.
#[derive(Debug)]
pub struct QueueConfig {
    pub urls: Vec<String>,
}

/// Where the database nodes are, and the credentials to use.
#[derive(Debug)]
pub struct DatabaseConfig {
    pub urls: Vec<String>,
    pub username: String,
    pub password: String,
}

/// Whether the core organization and application are created at start.
#[derive(Debug)]
pub struct CoreConfig {
    pub generate_core_org_app: bool,
}

/// The core organization.
#[derive(Debug)]
pub struct OrganizationConfig {
    pub name: String,
    pub slug: String,
    pub contact_email: String,
}

/// The core application.
#[derive(Debug)]
pub struct ApplicationConfig {
    pub name: String,
    pub description: String,
    pub config: AppConfig,
}

/// The configuration of the core setup.
#[derive(Debug)]
pub struct Config {
    pub core: CoreConfig,
    pub organization: OrganizationConfig,
    pub application: ApplicationConfig,
}

/// Whether a character is Unicode `White_Space`, the whitespace that
/// `str::trim` removes.
pub open spec fn is_white_space(c: char) -> bool {
    let n = c as u32;
    ||| 0x9 <= n <= 0xd
    ||| n == 0x20
    ||| n == 0x85
    ||| n == 0xa0
    ||| n == 0x1680
    ||| 0x2000 <= n <= 0x200a
    ||| n == 0x2028
    ||| n == 0x2029
    ||| n == 0x202f
    ||| n == 0x205f
    ||| n == 0x3000
}

/// A text without its leading whitespace.
pub open spec fn trim_start_spec(s: Seq<char>) -> Seq<char>
    decreases s.len(),
{
    if s.len() > 0 && is_white_space(s[0]) {
        trim_start_spec(s.drop_first())
    } else {
        s
    }
}

/// A text without its trailing whitespace.
pub open spec fn trim_end_spec(s: Seq<char>) -> Seq<char>
    decreases s.len(),
{
    if s.len() > 0 && is_white_space(s.last()) {
        trim_end_spec(s.drop_last())
    } else {
        s
    }
}

/// A text without its leading and trailing whitespace, as `str::trim`
/// gives it.
pub open spec fn trim_spec(s: Seq<char>) -> Seq<char> {
    trim_end_spec(trim_start_spec(s))
}

/// The nodes listed in a text: its pieces between commas, each trimmed.
pub open spec fn node_list_spec(s: Seq<char>) -> Seq<Seq<char>> {
    split_on(s, ',').map_values(|p: Seq<char>| trim_spec(p))
}

/// Leading whitespace up to `k` is dropped by `trim_start_spec`.
proof fn lemma_trim_start(s: Seq<char>, k: int)
    requires
        0 <= k <= s.len(),
        forall|j: int| 0 <= j < k ==> is_white_space(#[trigger] s[j]),
        k < s.len() ==> !is_white_space(s[k]),
    ensures
        trim_start_spec(s) == s.skip(k),
    decreases k,
{
    if k == 0 {
        assert(s.skip(0) =~= s);
    } else {
        let t = s.drop_first();
        assert forall|j: int| 0 <= j < k - 1 implies is_white_space(#[trigger] t[j]) by {
            assert(t[j] == s[j + 1]);
        }
        lemma_trim_start(t, k - 1);
        assert(t.skip(k - 1) =~= s.skip(k));
    }
}

/// Trailing whitespace from `e` on is dropped by `trim_end_spec`.
proof fn lemma_trim_end(s: Seq<char>, e: int)
    requires
        0 <= e <= s.len(),
        forall|j: int| e <= j < s.len() ==> is_white_space(#[trigger] s[j]),
        e > 0 ==> !is_white_space(s[e - 1]),
    ensures
        trim_end_spec(s) == s.take(e),
    decreases s.len() - e,
{
    if e == s.len() {
        assert(s.take(e) =~= s);
    } else {
        let t = s.drop_last();
        assert forall|j: int| e <= j < t.len() implies is_white_space(#[trigger] t[j]) by {
            assert(t[j] == s[j]);
        }
        lemma_trim_end(t, e);
        assert(t.take(e) =~= s.take(e));
    }
}

/// Whether a character is Unicode `White_Space`.
fn white_space(c: char) -> (res: bool)
    ensures
        res == is_white_space(c),
{
    let n = c as u32;
    (0x9 <= n && n <= 0xd) || n == 0x20 || n == 0x85 || n == 0xa0 || n == 0x1680 || (0x2000 <= n
        && n <= 0x200a) || n == 0x2028 || n == 0x2029 || n == 0x202f || n == 0x205f || n == 0x3000
}

/// A text without its leading and trailing whitespace.
pub fn trim(s: &str) -> (res: String)
    ensures
        res@ == trim_spec(s@),
{
    let n = s.unicode_len();
    let mut k: usize = 0;
    while k < n && white_space(s.get_char(k))
        invariant
            n == s@.len(),
            k <= n,
            forall|j: int| 0 <= j < k ==> is_white_space(#[trigger] s@[j]),
        decreases n - k,
    {
        k = k + 1;
    }
    let mut e: usize = n;
    while e > k && white_space(s.get_char(e - 1))
        invariant
            n == s@.len(),
            k <= e <= n,
            forall|j: int| e <= j < n ==> is_white_space(#[trigger] s@[j]),
        decreases e - k,
    {
        e = e - 1;
    }
    proof {
        lemma_trim_start(s@, k as int);
        let t = s@.skip(k as int);
        assert forall|j: int| e - k <= j < t.len() implies is_white_space(#[trigger] t[j]) by {
            assert(t[j] == s@[j + k]);
        }
        if e > k {
            assert(t[e - k - 1] == s@[e - 1]);
        }
        lemma_trim_end(t, e - k);
        assert(t.take(e - k) =~= s@.subrange(k as int, e as int));
    }
    s.substring_char(k, e).to_owned()
}

/// The database nodes listed in a text: its pieces between commas, each
/// trimmed, in order; an empty text lists one empty node, as splitting it
/// does.
pub fn database_urls(text: &str) -> (res: Vec<String>)
    ensures
        res@.map_values(|u: String| u@) == node_list_spec(text@),
{
    let n = text.unicode_len();
    let mut pieces: Vec<String> = Vec::new();
    let ghost mut raw: Seq<Seq<char>> = Seq::empty();
    let mut start: usize = 0;
    let mut i: usize = 0;
    proof {
        assert(text@.take(0) =~= Seq::<char>::empty());
        assert(text@.subrange(0, 0) =~= Seq::<char>::empty());
        assert(raw + seq![text@.subrange(0, 0)] =~= seq![Seq::<char>::empty()]);
    }
    while i < n
        invariant
            n == text@.len(),
            start <= i <= n,
            raw + seq![text@.subrange(start as int, i as int)] == split_on(text@.take(i as int), ','),
            pieces@.map_values(|u: String| u@) == raw.map_values(|p: Seq<char>| trim_spec(p)),
        decreases n - i,
    {
        let c = text.get_char(i);
        proof {
            assert(text@.take(i + 1).drop_last() =~= text@.take(i as int));
            assert(text@.take(i + 1).last() == c);
        }
        if c == ',' {
            let piece = trim(text.substring_char(start, i));
            let ghost old_pieces = pieces@;
            let ghost old_raw = raw;
            let ghost old_piece = text@.subrange(start as int, i as int);
            pieces.push(piece);
            proof {
                raw = raw.push(old_piece);
                assert(pieces@.map_values(|u: String| u@) =~= old_pieces.map_values(|u: String| u@).push(
                    trim_spec(old_piece),
                ));
                assert(raw.map_values(|p: Seq<char>| trim_spec(p)) =~= old_raw.map_values(
                    |p: Seq<char>| trim_spec(p),
                ).push(trim_spec(old_piece)));
                assert(text@.subrange(i + 1, i + 1) =~= Seq::<char>::empty());
                assert(raw + seq![text@.subrange(i + 1, i + 1)] =~= (old_raw + seq![old_piece]).push(
                    Seq::<char>::empty(),
                ));
            }
            start = i + 1;
        } else {
            proof {
                let r = raw + seq![text@.subrange(start as int, i as int)];
                assert(text@.subrange(start as int, i + 1) =~= text@.subrange(start as int, i as int).push(c));
                assert(raw + seq![text@.subrange(start as int, i + 1)] =~= r.update(
                    r.len() - 1,
                    r.last().push(c),
                ));
            }
        }
        i = i + 1;
    }
    let last = trim(text.substring_char(start, n));
    let ghost old_pieces = pieces@;
    pieces.push(last);
    proof {
        assert(text@.take(n as int) =~= text@);
        let last_piece = text@.subrange(start as int, n as int);
        assert(pieces@.map_values(|u: String| u@) =~= old_pieces.map_values(|u: String| u@).push(
            trim_spec(last_piece),
        ));
        assert((raw + seq![last_piece]).map_values(|p: Seq<char>| trim_spec(p)) =~= raw.map_values(
            |p: Seq<char>| trim_spec(p),
        ).push(trim_spec(last_piece)));
    }
    pieces
}

} // verus!
