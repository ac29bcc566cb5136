//! MQTT topic names derived from digital twin model identifiers (DTMIs).

use vstd::prelude::*;

verus! {

/// The characters that separate the parts of a DTMI.
pub open spec fn is_dtmi_separator(c: char) -> bool {
    c == ':' || c == ';'
}

/// The position of the first separator at or after `i`, or the length of `s`
/// when there is none.
pub open spec fn first_separator_from(s: Seq<char>, i: int) -> int
    decreases s.len() - i,
{
    if i < 0 || i >= s.len() {
        s.len() as int
    } else if is_dtmi_separator(s[i]) {
        i
    } else {
        first_separator_from(s, i + 1)
    }
}

/// `s` with every separator turned into a slash.
pub open spec fn slash_separators(s: Seq<char>) -> Seq<char> {
    s.map_values(|c: char| if is_dtmi_separator(c) { '/' } else { c })
}

/// The topic for a DTMI: the DTMI's parts (split at ':' and ';') after the
/// first, joined by slashes. The first part must be the scheme "dtmi";
/// otherwise there is no topic.
pub open spec fn spec_dtmi_topic(dtmi: Seq<char>) -> Option<Seq<char>> {
    let k = first_separator_from(dtmi, 0);
    if dtmi.take(k) != "dtmi"@ {
        None
    } else if k == dtmi.len() {
        Some(Seq::empty())
    } else {
        Some(slash_separators(dtmi.skip(k + 1)))
    }
}

proof fn lemma_first_separator_bounds(s: Seq<char>, i: int)
    requires
        0 <= i <= s.len(),
    ensures
        i <= first_separator_from(s, i) <= s.len(),
        first_separator_from(s, i) < s.len() ==> is_dtmi_separator(s[first_separator_from(s, i)]),
        forall|j: int| i <= j < first_separator_from(s, i) ==> !is_dtmi_separator(#[trigger] s[j]),
    decreases s.len() - i,
{
    if i < s.len() && !is_dtmi_separator(s[i]) {
        lemma_first_separator_bounds(s, i + 1);
    }
}

proof fn lemma_slash_concat(a: Seq<char>, b: Seq<char>)
    ensures
        slash_separators(a + b) == slash_separators(a) + slash_separators(b),
{
    assert(slash_separators(a + b) =~= slash_separators(a) + slash_separators(b));
}

proof fn lemma_slash_plain(a: Seq<char>)
    requires
        forall|j: int| 0 <= j < a.len() ==> !is_dtmi_separator(#[trigger] a[j]),
    ensures
        slash_separators(a) == a,
{
    assert(slash_separators(a) =~= a);
}

/// Is `c` a DTMI separator?
fn is_separator(c: char) -> (r: bool)
    ensures
        r == is_dtmi_separator(c),
{
    c == ':' || c == ';'
}

/// Convert a DTMI to a MQTT topic name.
/// The conversion will strip off the scheme (i.e. the "dtmi:" prefix)
/// and replace all separators (':' and ';') with a slash.
///
/// # Arguments
/// `dtmi` - The DTMI.
pub fn convert_dtmi_to_topic(dtmi: &str) -> (r: Result<String, String>)
    ensures
        r matches Ok(t) ==> spec_dtmi_topic(dtmi@) == Some(t@),
        r matches Err(m) ==> spec_dtmi_topic(dtmi@) is None && m@ == "Invalid dtmi"@,
{
    let n = dtmi.unicode_len();
    // Find the end of the scheme.
    let mut k: usize = 0;
    while k < n && !is_separator(dtmi.get_char(k))
        invariant
            n == dtmi@.len(),
            k <= n,
            forall|j: int| 0 <= j < k ==> !is_dtmi_separator(#[trigger] dtmi@[j]),
        decreases n - k,
    {
        k = k + 1;
    }
    proof {
        lemma_first_separator_bounds(dtmi@, 0);
        assert(first_separator_from(dtmi@, 0) == k) by {
            if first_separator_from(dtmi@, 0) < k {
                assert(!is_dtmi_separator(dtmi@[first_separator_from(dtmi@, 0)]));
            }
            if k < first_separator_from(dtmi@, 0) {
                assert(!is_dtmi_separator(dtmi@[k as int]));
            }
        }
    }
    let scheme = String::from_str(dtmi.substring_char(0, k));
    let expected = String::from_str("dtmi");
    if !(scheme == expected) {
        return Err(String::from_str("Invalid dtmi"));
    }
    let mut topic = String::new();
    if k == n {
        return Ok(topic);
    }
    let ghost rest_start: int = k + 1;
    let mut start: usize = k + 1;
    let mut j: usize = k + 1;
    while j < n
        invariant
            n == dtmi@.len(),
            rest_start == k + 1,
            k < n,
            rest_start <= start <= j <= n,
            topic@ == slash_separators(dtmi@.subrange(rest_start, start as int)),
            forall|m: int| start <= m < j ==> !is_dtmi_separator(#[trigger] dtmi@[m]),
        decreases n - j,
    {
        let c = dtmi.get_char(j);
        if is_separator(c) {
            let segment = dtmi.substring_char(start, j);
            proof {
                reveal_strlit("/");
                let seg = dtmi@.subrange(start as int, j as int);
                assert forall|m: int| 0 <= m < seg.len() implies !is_dtmi_separator(#[trigger] seg[m]) by {
                    assert(seg[m] == dtmi@[start + m]);
                }
                lemma_slash_plain(seg);
                lemma_slash_concat(dtmi@.subrange(rest_start, start as int), seg);
                assert(dtmi@.subrange(rest_start, start as int) + seg =~= dtmi@.subrange(rest_start, j as int));
                lemma_slash_concat(dtmi@.subrange(rest_start, j as int), seq![c]);
                assert(dtmi@.subrange(rest_start, j as int) + seq![c] =~= dtmi@.subrange(rest_start, j + 1));
                assert(slash_separators(seq![c]) =~= seq!['/']);
            }
            topic.append(segment);
            topic.append("/");
            start = j + 1;
        }
        j = j + 1;
    }
    let last = dtmi.substring_char(start, n);
    proof {
        let seg = dtmi@.subrange(start as int, n as int);
        assert forall|m: int| 0 <= m < seg.len() implies !is_dtmi_separator(#[trigger] seg[m]) by {
            assert(seg[m] == dtmi@[start + m]);
        }
        lemma_slash_plain(seg);
        lemma_slash_concat(dtmi@.subrange(rest_start, start as int), seg);
        assert(dtmi@.subrange(rest_start, start as int) + seg =~= dtmi@.skip(rest_start));
    }
    topic.append(last);
    Ok(topic)
}

/// A topic never holds a DTMI separator: every ':' and ';' became a slash.
pub proof fn lemma_topic_has_no_separators(dtmi: Seq<char>)
    ensures
        spec_dtmi_topic(dtmi) matches Some(topic) ==> forall|i: int| 0 <= i < topic.len() ==> !is_dtmi_separator(#[trigger] topic[i]),
{
}

/// The topic of "dtmi:" followed by a path is the path with its separators
/// turned into slashes: the scheme is stripped off.
pub proof fn lemma_topic_strips_scheme(path: Seq<char>)
    ensures
        spec_dtmi_topic("dtmi:"@ + path) == Some(slash_separators(path)),
{
    reveal_strlit("dtmi:");
    reveal_strlit("dtmi");
    let d = "dtmi:"@ + path;
    assert(d[0] == 'd' && d[1] == 't' && d[2] == 'm' && d[3] == 'i' && d[4] == ':');
    assert(first_separator_from(d, 4) == 4);
    assert(first_separator_from(d, 3) == 4);
    assert(first_separator_from(d, 2) == 4);
    assert(first_separator_from(d, 1) == 4);
    assert(first_separator_from(d, 0) == 4);
    assert(d.take(4) =~= "dtmi"@);
    assert(d.skip(5) =~= path);
}

} // verus!
