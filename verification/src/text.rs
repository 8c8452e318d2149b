//! Character-level string operations shared by every module, each with the
//! mathematical statement of what it computes over `Seq<char>`.
use vstd::prelude::*;
use vstd::string::*;

verus! {

/// `String::push` appends one character.
pub assume_specification[ String::push ](s: &mut String, ch: char)
    ensures
        final(s)@ == old(s)@.push(ch),
;

// ------------------------------------------------------------------ chars

/// The characters of a string slice, in order.
pub fn chars_of(s: &str) -> (v: Vec<char>)
    ensures
        v@ == s@,
{
    let mut v: Vec<char> = Vec::new();
    for c in iter: s.chars()
        invariant
            v@ == iter.seq().take(iter.index() as int),
    {
        v.push(c);
    }
    v
}

/// A string holding exactly the given characters.
pub fn string_of(v: &Vec<char>) -> (s: String)
    ensures
        s@ == v@,
{
    let mut s = String::new();
    let mut i: usize = 0;
    while i < v.len()
        invariant
            i <= v.len(),
            s@ == v@.take(i as int),
        decreases v.len() - i,
    {
        s.push(v[i]);
        i = i + 1;
        assert(s@ =~= v@.take(i as int));
    }
    assert(v@.take(i as int) =~= v@);
    s
}

/// An owned copy of a string slice.
pub fn owned(s: &str) -> (r: String)
    ensures
        r@ == s@,
{
    string_of(&chars_of(s))
}

/// Characters of `a` followed by those of `b`.
pub fn concat(a: &str, b: &str) -> (r: String)
    ensures
        r@ == a@ + b@,
{
    let mut r = owned(a);
    r.append(b);
    r
}

/// Equality of two string slices, character by character.
pub fn str_eq(a: &str, b: &str) -> (r: bool)
    ensures
        r == (a@ == b@),
{
    let x = owned(a);
    let y = owned(b);
    x == y
}

/// `true` when `c` occurs in `s`.
pub fn has_char(s: &str, c: char) -> (r: bool)
    ensures
        r == s@.contains(c),
{
    let v = chars_of(s);
    let mut i: usize = 0;
    while i < v.len()
        invariant
            i <= v.len(),
            v@ == s@,
            forall|j: int| 0 <= j < i ==> v@[j] != c,
        decreases v.len() - i,
    {
        if v[i] == c {
            assert(s@[i as int] == c);
            return true;
        }
        i = i + 1;
    }
    false
}

// ------------------------------------------------------------- whitespace

/// `char::is_whitespace`: the Unicode White_Space property.
pub open spec fn is_ws(c: char) -> bool {
    let u = c as u32;
    ||| 9 <= u <= 13
    ||| u == 32
    ||| u == 0x85
    ||| u == 0xA0
    ||| u == 0x1680
    ||| 0x2000 <= u <= 0x200A
    ||| u == 0x2028
    ||| u == 0x2029
    ||| u == 0x202F
    ||| u == 0x205F
    ||| u == 0x3000
}

pub fn is_ws_char(c: char) -> (r: bool)
    ensures
        r == is_ws(c),
{
    let u = c as u32;
    (9 <= u && u <= 13) || u == 32 || u == 0x85 || u == 0xA0 || u == 0x1680 || (0x2000 <= u && u
        <= 0x200A) || u == 0x2028 || u == 0x2029 || u == 0x202F || u == 0x205F || u == 0x3000
}

/// `str::trim_start`.
pub open spec fn trim_start_seq(s: Seq<char>) -> Seq<char>
    decreases s.len(),
{
    if s.len() > 0 && is_ws(s[0]) {
        trim_start_seq(s.drop_first())
    } else {
        s
    }
}

/// `str::trim_end`.
pub open spec fn trim_end_seq(s: Seq<char>) -> Seq<char>
    decreases s.len(),
{
    if s.len() > 0 && is_ws(s.last()) {
        trim_end_seq(s.drop_last())
    } else {
        s
    }
}

/// `str::trim`.
pub open spec fn trim_seq(s: Seq<char>) -> Seq<char> {
    trim_end_seq(trim_start_seq(s))
}

/// Every character is whitespace (so the trimmed string is empty).
pub open spec fn all_ws(s: Seq<char>) -> bool {
    forall|i: int| 0 <= i < s.len() ==> is_ws(#[trigger] s[i])
}

proof fn lemma_trim_start_skip(s: Seq<char>, i: int)
    requires
        0 <= i <= s.len(),
        forall|j: int| 0 <= j < i ==> is_ws(#[trigger] s[j]),
    ensures
        trim_start_seq(s) == trim_start_seq(s.subrange(i, s.len() as int)),
    decreases i,
{
    if i > 0 {
        lemma_trim_start_skip(s, i - 1);
        let t = s.subrange(i - 1, s.len() as int);
        assert(t.drop_first() =~= s.subrange(i, s.len() as int));
        assert(t[0] == s[i - 1]);
    } else {
        assert(s.subrange(0, s.len() as int) =~= s);
    }
}

proof fn lemma_trim_end_skip(s: Seq<char>, k: int)
    requires
        0 <= k <= s.len(),
        forall|j: int| k <= j < s.len() ==> is_ws(#[trigger] s[j]),
    ensures
        trim_end_seq(s) == trim_end_seq(s.subrange(0, k)),
    decreases s.len() - k,
{
    if k < s.len() {
        lemma_trim_end_skip(s, k + 1);
        let t = s.subrange(0, k + 1);
        assert(t.drop_last() =~= s.subrange(0, k));
        assert(t.last() == s[k]);
    } else {
        assert(s.subrange(0, s.len() as int) =~= s);
    }
}

pub proof fn lemma_trim_empty_iff_all_ws(s: Seq<char>)
    ensures
        (trim_seq(s).len() == 0) == all_ws(s),
        trim_start_seq(s).len() == 0 <==> all_ws(s),
    decreases s.len(),
{
    if s.len() > 0 {
        lemma_trim_empty_iff_all_ws(s.drop_first());
        if is_ws(s[0]) {
            assert(all_ws(s) == all_ws(s.drop_first())) by {
                if all_ws(s.drop_first()) {
                    assert forall|i: int| 0 <= i < s.len() implies is_ws(#[trigger] s[i]) by {
                        if i > 0 {
                            assert(s[i] == s.drop_first()[i - 1]);
                        }
                    }
                }
                if all_ws(s) {
                    assert forall|i: int| 0 <= i < s.drop_first().len() implies is_ws(
                        #[trigger] s.drop_first()[i],
                    ) by {
                        assert(s.drop_first()[i] == s[i + 1]);
                    }
                }
            }
        } else {
            assert(!all_ws(s));
            lemma_trim_end_nonempty(s);
        }
    }
}

proof fn lemma_trim_end_nonempty(s: Seq<char>)
    requires
        s.len() > 0,
        !is_ws(s[0]),
    ensures
        trim_end_seq(s).len() > 0,
    decreases s.len(),
{
    if is_ws(s.last()) {
        assert(s.len() > 1);
        assert(s.drop_last()[0] == s[0]);
        lemma_trim_end_nonempty(s.drop_last());
    }
}

proof fn lemma_trim_start_shape(s: Seq<char>)
    ensures
        exists|k: int| 0 <= k <= s.len() && trim_start_seq(s) == s.subrange(k, s.len() as int),
        trim_start_seq(s).len() > 0 ==> !is_ws(trim_start_seq(s)[0]),
    decreases s.len(),
{
    if s.len() > 0 && is_ws(s[0]) {
        lemma_trim_start_shape(s.drop_first());
        let k = choose|k: int|
            0 <= k <= s.drop_first().len() && trim_start_seq(s.drop_first())
                == s.drop_first().subrange(k, s.drop_first().len() as int);
        assert(s.drop_first().subrange(k, s.drop_first().len() as int) =~= s.subrange(
            k + 1,
            s.len() as int,
        ));
    } else {
        assert(s.subrange(0, s.len() as int) =~= s);
    }
}

proof fn lemma_trim_end_shape(s: Seq<char>)
    ensures
        exists|k: int| 0 <= k <= s.len() && trim_end_seq(s) == s.subrange(0, k),
        trim_end_seq(s).len() > 0 ==> !is_ws(trim_end_seq(s).last()),
    decreases s.len(),
{
    if s.len() > 0 && is_ws(s.last()) {
        lemma_trim_end_shape(s.drop_last());
        let k = choose|k: int|
            0 <= k <= s.drop_last().len() && trim_end_seq(s.drop_last())
                == s.drop_last().subrange(0, k);
        assert(s.drop_last().subrange(0, k) =~= s.subrange(0, k));
    } else {
        assert(s.subrange(0, s.len() as int) =~= s);
    }
}

/// Trimming twice is trimming once; a trimmed string that is not empty
/// starts and ends with a non-whitespace character.
pub proof fn lemma_trim_idempotent(s: Seq<char>)
    ensures
        trim_seq(trim_seq(s)) == trim_seq(s),
        trim_seq(s).len() > 0 ==> !is_ws(trim_seq(s)[0]) && !is_ws(trim_seq(s).last()),
{
    let a = trim_start_seq(s);
    let t = trim_end_seq(a);
    lemma_trim_start_shape(s);
    lemma_trim_end_shape(a);
    if t.len() > 0 {
        let k = choose|k: int| 0 <= k <= a.len() && trim_end_seq(a) == a.subrange(0, k);
        assert(t[0] == a[0]);
        assert(trim_start_seq(t) == t);
        assert(trim_end_seq(t) == t);
    } else {
        assert(trim_start_seq(t) == t);
        assert(trim_end_seq(t) == t);
    }
}

/// `str::trim`: the string without leading and trailing whitespace.
pub fn trim(s: &str) -> (r: String)
    ensures
        r@ == trim_seq(s@),
{
    let v = chars_of(s);
    let n = v.len();
    let mut i: usize = 0;
    while i < n && is_ws_char(v[i])
        invariant
            i <= n,
            n == v@.len(),
            forall|j: int| 0 <= j < i ==> is_ws(#[trigger] v@[j]),
        decreases n - i,
    {
        i = i + 1;
    }
    proof {
        lemma_trim_start_skip(v@, i as int);
    }
    let ghost t = v@.subrange(i as int, n as int);
    assert(trim_start_seq(t) == t) by {
        if t.len() > 0 {
            assert(t[0] == v@[i as int]);
        }
    }
    let mut k: usize = n;
    while k > i && is_ws_char(v[k - 1])
        invariant
            i <= k <= n,
            n == v@.len(),
            forall|j: int| k <= j < n ==> is_ws(#[trigger] v@[j]),
        decreases k,
    {
        k = k - 1;
    }
    proof {
        assert forall|j: int| k - i <= j < t.len() implies is_ws(#[trigger] t[j]) by {
            assert(t[j] == v@[i + j]);
        }
        lemma_trim_end_skip(t, k - i);
        let u = t.subrange(0, k - i);
        assert(u =~= v@.subrange(i as int, k as int));
        if u.len() > 0 {
            assert(u.last() == v@[k - 1]);
        }
        assert(trim_end_seq(u) == u);
    }
    let mut r = String::new();
    let mut p: usize = i;
    while p < k
        invariant
            i <= p <= k <= n,
            n == v@.len(),
            r@ == v@.subrange(i as int, p as int),
        decreases k - p,
    {
        r.push(v[p]);
        p = p + 1;
        assert(r@ =~= v@.subrange(i as int, p as int));
    }
    r
}

/// `true` when the string is empty once trimmed.
pub fn is_blank(s: &str) -> (r: bool)
    ensures
        r == (trim_seq(s@).len() == 0),
        r == all_ws(s@),
{
    proof {
        lemma_trim_empty_iff_all_ws(s@);
    }
    let v = chars_of(s);
    let mut i: usize = 0;
    while i < v.len()
        invariant
            i <= v.len(),
            v@ == s@,
            forall|j: int| 0 <= j < i ==> is_ws(#[trigger] v@[j]),
        decreases v.len() - i,
    {
        if !is_ws_char(v[i]) {
            assert(!is_ws(s@[i as int]));
            assert(!all_ws(s@));
            proof {
                lemma_trim_empty_iff_all_ws(s@);
            }
            return false;
        }
        i = i + 1;
    }
    true
}

// ------------------------------------------------------------------ words

/// The whitespace-separated words of `s` (`str::split_whitespace`), where
/// `cur` holds the characters of the word being read.
pub open spec fn words_aux(s: Seq<char>, cur: Seq<char>) -> Seq<Seq<char>>
    decreases s.len(),
{
    if s.len() == 0 {
        if cur.len() > 0 {
            seq![cur]
        } else {
            Seq::empty()
        }
    } else if is_ws(s[0]) {
        (if cur.len() > 0 {
            seq![cur]
        } else {
            Seq::<Seq<char>>::empty()
        }) + words_aux(s.drop_first(), Seq::empty())
    } else {
        words_aux(s.drop_first(), cur.push(s[0]))
    }
}

/// `str::split_whitespace`.
pub open spec fn words(s: Seq<char>) -> Seq<Seq<char>> {
    words_aux(s, Seq::empty())
}

pub open spec fn views_of(v: Seq<String>) -> Seq<Seq<char>> {
    v.map_values(|w: String| w@)
}

/// The words of `s`, in order.
pub fn split_words(s: &str) -> (r: Vec<String>)
    ensures
        views_of(r@) == words(s@),
{
    let v = chars_of(s);
    let n = v.len();
    let mut out: Vec<String> = Vec::new();
    let mut cur: Vec<char> = Vec::new();
    let mut i: usize = 0;
    assert(v@.subrange(0, n as int) =~= s@);
    assert(views_of(out@) =~= Seq::<Seq<char>>::empty());
    assert(cur@ =~= Seq::<char>::empty());
    while i < n
        invariant
            i <= n,
            n == v@.len(),
            v@ == s@,
            views_of(out@) + words_aux(v@.subrange(i as int, n as int), cur@) == words(s@),
        decreases n - i,
    {
        let ghost rest = v@.subrange(i as int, n as int);
        assert(rest.drop_first() =~= v@.subrange(i + 1, n as int));
        assert(rest[0] == v@[i as int]);
        let ghost before = views_of(out@);
        let c = v[i];
        if is_ws_char(c) {
            if cur.len() > 0 {
                let done = string_of(&cur);
                cur = Vec::new();
                out.push(done);
                assert(views_of(out@) =~= before + seq![done@]);
            } else {
                assert(cur@ =~= Seq::<char>::empty());
                assert(views_of(out@) =~= before + Seq::<Seq<char>>::empty());
            }
        } else {
            cur.push(c);
        }
        i = i + 1;
    }
    let ghost rest = v@.subrange(n as int, n as int);
    assert(rest.len() == 0);
    if cur.len() > 0 {
        let ghost before = views_of(out@);
        let done = string_of(&cur);
        out.push(done);
        assert(views_of(out@) =~= before + seq![done@]);
    } else {
        assert(views_of(out@) =~= views_of(out@) + words_aux(rest, cur@));
    }
    out
}

/// `seq.join(sep)` over character sequences.
pub open spec fn join_seqs(ws: Seq<Seq<char>>, sep: Seq<char>) -> Seq<char>
    decreases ws.len(),
{
    if ws.len() == 0 {
        Seq::empty()
    } else if ws.len() == 1 {
        ws[0]
    } else {
        join_seqs(ws.drop_last(), sep) + sep + ws.last()
    }
}

/// The strings of `ws` separated by `sep`.
pub fn join_strings(ws: &Vec<String>, sep: &str) -> (r: String)
    ensures
        r@ == join_seqs(views_of(ws@), sep@),
{
    let mut r = String::new();
    let mut i: usize = 0;
    while i < ws.len()
        invariant
            i <= ws.len(),
            r@ == join_seqs(views_of(ws@).take(i as int), sep@),
        decreases ws.len() - i,
    {
        let ghost pre = views_of(ws@).take(i as int);
        let ghost post = views_of(ws@).take(i + 1);
        assert(post.drop_last() =~= pre);
        assert(post.last() == ws@[i as int]@);
        if i > 0 {
            r.append(sep);
        } else {
            assert(pre.len() == 0);
            assert(r@ =~= Seq::<char>::empty());
        }
        r.append(ws[i].as_str());
        i = i + 1;
    }
    assert(views_of(ws@).take(i as int) =~= views_of(ws@));
    r
}

/// Words of `s` joined by single spaces.
pub open spec fn collapse_ws(s: Seq<char>) -> Seq<char> {
    join_seqs(words(s), seq![' '])
}

/// A word: non-empty, without whitespace.
pub open spec fn is_word(w: Seq<char>) -> bool {
    w.len() > 0 && forall|i: int| 0 <= i < w.len() ==> !is_ws(#[trigger] w[i])
}

proof fn lemma_words_aux_are_words(s: Seq<char>, cur: Seq<char>)
    requires
        forall|i: int| 0 <= i < cur.len() ==> !is_ws(#[trigger] cur[i]),
    ensures
        forall|j: int| 0 <= j < words_aux(s, cur).len() ==> is_word(#[trigger] words_aux(s, cur)[j]),
    decreases s.len(),
{
    if s.len() == 0 {
        if cur.len() > 0 {
            assert(is_word(cur));
            assert(words_aux(s, cur) =~= seq![cur]);
            assert forall|j: int| 0 <= j < words_aux(s, cur).len() implies is_word(
                #[trigger] words_aux(s, cur)[j],
            ) by {
                assert(j == 0);
            }
        } else {
            assert(words_aux(s, cur).len() == 0);
        }
    } else if is_ws(s[0]) {
        lemma_words_aux_are_words(s.drop_first(), Seq::empty());
        let head = if cur.len() > 0 {
            seq![cur]
        } else {
            Seq::<Seq<char>>::empty()
        };
        let tail = words_aux(s.drop_first(), Seq::empty());
        assert(words_aux(s, cur) == head + tail);
        if cur.len() > 0 {
            assert(is_word(cur));
        }
        assert forall|j: int| 0 <= j < (head + tail).len() implies is_word(#[trigger] (head
            + tail)[j]) by {
            if j < head.len() {
                assert((head + tail)[j] == cur);
            } else {
                assert((head + tail)[j] == tail[j - head.len()]);
            }
        }
    } else {
        let c2 = cur.push(s[0]);
        assert forall|i: int| 0 <= i < c2.len() implies !is_ws(#[trigger] c2[i]) by {
            if i < cur.len() {
                assert(c2[i] == cur[i]);
            }
        }
        lemma_words_aux_are_words(s.drop_first(), c2);
        assert(words_aux(s, cur) == words_aux(s.drop_first(), c2));
    }
}

proof fn lemma_words_aux_word(w: Seq<char>, rest: Seq<char>, cur: Seq<char>)
    requires
        forall|i: int| 0 <= i < w.len() ==> !is_ws(#[trigger] w[i]),
    ensures
        words_aux(w + rest, cur) == words_aux(rest, cur + w),
    decreases w.len(),
{
    if w.len() == 0 {
        assert(w + rest =~= rest);
        assert(cur + w =~= cur);
    } else {
        let s = w + rest;
        assert(s[0] == w[0]);
        assert(!is_ws(w[0]));
        assert(s.drop_first() =~= w.drop_first() + rest);
        assert forall|i: int| 0 <= i < w.drop_first().len() implies !is_ws(
            #[trigger] w.drop_first()[i],
        ) by {
            assert(w.drop_first()[i] == w[i + 1]);
        }
        lemma_words_aux_word(w.drop_first(), rest, cur.push(w[0]));
        assert(cur.push(w[0]) + w.drop_first() =~= cur + w);
    }
}

proof fn lemma_words_aux_nonempty(s: Seq<char>, cur: Seq<char>)
    requires
        cur.len() > 0 || !all_ws(s),
    ensures
        words_aux(s, cur).len() > 0,
    decreases s.len(),
{
    if s.len() == 0 {
    } else if is_ws(s[0]) {
        if cur.len() == 0 {
            let k = choose|k: int| 0 <= k < s.len() && !is_ws(#[trigger] s[k]);
            assert(k != 0);
            assert(s.drop_first()[k - 1] == s[k]);
            lemma_words_aux_nonempty(s.drop_first(), Seq::empty());
        }
    } else {
        lemma_words_aux_nonempty(s.drop_first(), cur.push(s[0]));
    }
}

proof fn lemma_words_aux_all_ws(s: Seq<char>)
    requires
        all_ws(s),
    ensures
        words_aux(s, Seq::empty()).len() == 0,
    decreases s.len(),
{
    if s.len() > 0 {
        assert(is_ws(s[0]));
        assert forall|i: int| 0 <= i < s.drop_first().len() implies is_ws(
            #[trigger] s.drop_first()[i],
        ) by {
            assert(s.drop_first()[i] == s[i + 1]);
        }
        lemma_words_aux_all_ws(s.drop_first());
        assert(Seq::<Seq<char>>::empty() + words_aux(s.drop_first(), Seq::empty())
            =~= words_aux(s.drop_first(), Seq::empty()));
    }
}

proof fn lemma_join_front(ws: Seq<Seq<char>>, sep: Seq<char>)
    requires
        ws.len() >= 2,
    ensures
        join_seqs(ws, sep) == ws[0] + sep + join_seqs(ws.drop_first(), sep),
    decreases ws.len(),
{
    assert(join_seqs(ws, sep) == join_seqs(ws.drop_last(), sep) + sep + ws.last());
    if ws.len() == 2 {
        assert(ws.drop_last().len() == 1);
        assert(join_seqs(ws.drop_last(), sep) == ws.drop_last()[0]);
        assert(ws.drop_last()[0] == ws[0]);
        assert(ws.drop_first().len() == 1);
        assert(join_seqs(ws.drop_first(), sep) == ws.drop_first()[0]);
        assert(ws.drop_first()[0] == ws[1]);
        assert(ws.last() == ws[1]);
    } else {
        lemma_join_front(ws.drop_last(), sep);
        assert(ws.drop_last()[0] == ws[0]);
        assert(ws.drop_last().drop_first() =~= ws.drop_first().drop_last());
        assert(ws.drop_first().last() == ws.last());
        let d = ws.drop_first();
        assert(d.len() >= 2);
        assert(join_seqs(d, sep) == join_seqs(d.drop_last(), sep) + sep + d.last());
        assert(join_seqs(ws, sep) =~= ws[0] + sep + join_seqs(ws.drop_first(), sep));
    }
}

proof fn lemma_words_of_join(ws: Seq<Seq<char>>)
    requires
        forall|j: int| 0 <= j < ws.len() ==> is_word(#[trigger] ws[j]),
    ensures
        words(join_seqs(ws, seq![' '])) == ws,
    decreases ws.len(),
{
    let sp = seq![' '];
    if ws.len() == 0 {
        assert(words(join_seqs(ws, sp)) =~= ws);
    } else if ws.len() == 1 {
        assert(is_word(ws[0]));
        assert(ws[0] + Seq::<char>::empty() =~= ws[0]);
        lemma_words_aux_word(ws[0], Seq::empty(), Seq::empty());
        assert(Seq::<char>::empty() + ws[0] =~= ws[0]);
        assert(words(join_seqs(ws, sp)) =~= ws);
    } else {
        let rest = ws.drop_first();
        assert forall|j: int| 0 <= j < rest.len() implies is_word(#[trigger] rest[j]) by {
            assert(rest[j] == ws[j + 1]);
        }
        lemma_words_of_join(rest);
        lemma_join_front(ws, sp);
        let jr = join_seqs(rest, sp);
        assert(is_word(ws[0]));
        assert(ws[0] + sp + jr =~= ws[0] + (sp + jr));
        lemma_words_aux_word(ws[0], sp + jr, Seq::empty());
        assert(Seq::<char>::empty() + ws[0] =~= ws[0]);
        let t = sp + jr;
        assert(t[0] == ' ');
        assert(is_ws(' '));
        assert(t.drop_first() =~= jr);
        assert(words_aux(t, ws[0]) == seq![ws[0]] + words_aux(jr, Seq::empty()));
        assert(seq![ws[0]] + rest =~= ws);
    }
}

/// Collapsing whitespace twice gives what collapsing it once gives.
pub proof fn lemma_collapse_ws_idempotent(s: Seq<char>)
    ensures
        collapse_ws(collapse_ws(s)) == collapse_ws(s),
{
    lemma_words_aux_are_words(s, Seq::empty());
    lemma_words_of_join(words(s));
}

/// Text that is not all whitespace keeps a non-whitespace character once
/// collapsed.
pub proof fn lemma_collapse_ws_not_blank(s: Seq<char>)
    requires
        !all_ws(s),
    ensures
        !all_ws(collapse_ws(s)),
{
    lemma_words_aux_nonempty(s, Seq::empty());
    lemma_words_aux_are_words(s, Seq::empty());
    lemma_words_of_join(words(s));
    if all_ws(collapse_ws(s)) {
        lemma_words_aux_all_ws(collapse_ws(s));
    }
}

/// `s.split_whitespace().collect::<Vec<_>>().join(" ")`.
pub fn collapse_whitespace(s: &str) -> (r: String)
    ensures
        r@ == collapse_ws(s@),
{
    let ws = split_words(s);
    let sep = " ";
    proof {
        reveal_strlit(" ");
        assert(sep@ =~= seq![' ']);
    }
    join_strings(&ws, sep)
}

// -------------------------------------------------------------- searching

/// `s.starts_with(p)`.
pub open spec fn starts_with(s: Seq<char>, p: Seq<char>) -> bool {
    p.len() <= s.len() && s.subrange(0, p.len() as int) == p
}

/// `p` occurs in `s` at position `i`.
pub open spec fn occurs_at(s: Seq<char>, p: Seq<char>, i: int) -> bool {
    0 <= i && i + p.len() <= s.len() && s.subrange(i, i + p.len()) == p
}

/// `s.contains(p)` for a string pattern.
pub open spec fn contains_seq(s: Seq<char>, p: Seq<char>) -> bool {
    exists|i: int| occurs_at(s, p, i)
}

/// `true` when `p` occurs in `v` at position `i`.
pub fn matches_at(v: &Vec<char>, p: &Vec<char>, i: usize) -> (r: bool)
    ensures
        r == occurs_at(v@, p@, i as int),
{
    if i > v.len() || p.len() > v.len() - i {
        return false;
    }
    let mut j: usize = 0;
    while j < p.len()
        invariant
            j <= p.len(),
            i + p.len() <= v.len(),
            forall|k: int| 0 <= k < j ==> v@[i + k] == p@[k],
        decreases p.len() - j,
    {
        if v[i + j] != p[j] {
            assert(v@.subrange(i as int, i + p.len())[j as int] != p@[j as int]);
            return false;
        }
        j = j + 1;
    }
    assert(v@.subrange(i as int, i + p.len()) =~= p@);
    true
}

/// `s.starts_with(p)`.
pub fn has_prefix(s: &str, p: &str) -> (r: bool)
    ensures
        r == starts_with(s@, p@),
{
    let v = chars_of(s);
    let q = chars_of(p);
    matches_at(&v, &q, 0)
}

/// `s.contains(p)`.
pub fn contains_str(s: &str, p: &str) -> (r: bool)
    ensures
        r == contains_seq(s@, p@),
{
    let v = chars_of(s);
    let q = chars_of(p);
    let mut i: usize = 0;
    while i < v.len()
        invariant
            i <= v.len(),
            v@ == s@,
            q@ == p@,
            forall|k: int| 0 <= k < i ==> !occurs_at(s@, p@, k),
        decreases v.len() - i,
    {
        if matches_at(&v, &q, i) {
            return true;
        }
        i = i + 1;
    }
    if matches_at(&v, &q, i) {
        return true;
    }
    assert forall|k: int| !occurs_at(s@, p@, k) by {
        if k >= 0 && k <= i {
        }
    }
    false
}

// -------------------------------------------------------------- replacing

/// `s.replace(from, to)` for a non-empty pattern: occurrences are replaced
/// from left to right, without overlap.
pub open spec fn replace_seq(s: Seq<char>, from: Seq<char>, to: Seq<char>) -> Seq<char>
    decreases s.len(),
{
    if from.len() == 0 || s.len() < from.len() {
        s
    } else if s.subrange(0, from.len() as int) == from {
        to + replace_seq(s.subrange(from.len() as int, s.len() as int), from, to)
    } else {
        seq![s[0]] + replace_seq(s.drop_first(), from, to)
    }
}

/// `str::replace` with a non-empty pattern.
pub fn replace_all(s: &str, from: &str, to: &str) -> (r: String)
    requires
        from@.len() > 0,
    ensures
        r@ == replace_seq(s@, from@, to@),
{
    let v = chars_of(s);
    let p = chars_of(from);
    let n = v.len();
    let m = p.len();
    let mut out = String::new();
    let mut i: usize = 0;
    assert(v@.subrange(0, n as int) =~= s@);
    assert(out@ + replace_seq(s@, from@, to@) =~= replace_seq(s@, from@, to@));
    while i < n
        invariant
            i <= n,
            n == v@.len(),
            m == p@.len(),
            m > 0,
            v@ == s@,
            p@ == from@,
            out@ + replace_seq(v@.subrange(i as int, n as int), from@, to@) == replace_seq(
                s@,
                from@,
                to@,
            ),
        decreases n - i,
    {
        let ghost rest = v@.subrange(i as int, n as int);
        let ghost before = out@;
        if matches_at(&v, &p, i) {
            assert(rest.subrange(0, m as int) =~= v@.subrange(i as int, i + m));
            assert(rest.subrange(m as int, rest.len() as int) =~= v@.subrange(i + m, n as int));
            out.append(to);
            assert(out@ + replace_seq(v@.subrange(i + m, n as int), from@, to@) =~= before
                + replace_seq(rest, from@, to@));
            i = i + m;
        } else {
            proof {
                if rest.len() >= m {
                    assert(rest.subrange(0, m as int) =~= v@.subrange(i as int, i + m));
                }
            }
            assert(rest.drop_first() =~= v@.subrange(i + 1, n as int));
            assert(rest[0] == v@[i as int]);
            out.push(v[i]);
            assert(out@ + replace_seq(v@.subrange(i + 1, n as int), from@, to@) =~= before
                + replace_seq(rest, from@, to@));
            i = i + 1;
        }
    }
    assert(v@.subrange(n as int, n as int).len() == 0);
    assert(out@ =~= out@ + replace_seq(v@.subrange(n as int, n as int), from@, to@));
    out
}

// ---------------------------------------------------------------- numbers

/// The ASCII digit of `d` (for `0 <= d < 10`).
pub open spec fn digit(d: nat) -> char {
    ((48 + d) as u8) as char
}

/// Decimal representation of a natural number, without leading zeros.
pub open spec fn decimal(n: nat) -> Seq<char>
    decreases n,
{
    if n < 10 {
        seq![digit(n)]
    } else {
        decimal(n / 10).push(digit(n % 10))
    }
}

/// `n.to_string()`.
pub fn u64_to_string(n: u64) -> (r: String)
    ensures
        r@ == decimal(n as nat),
    decreases n,
{
    let d = (48 + (n % 10) as u8) as char;
    if n < 10 {
        let mut r = String::new();
        r.push(d);
        assert(r@ =~= seq![digit(n as nat)]);
        r
    } else {
        let mut r = u64_to_string(n / 10);
        r.push(d);
        r
    }
}

/// `n.to_string()` for a 128-bit value.
pub fn u128_to_string(n: u128) -> (r: String)
    ensures
        r@ == decimal(n as nat),
    decreases n,
{
    let d = (48 + (n % 10) as u8) as char;
    if n < 10 {
        let mut r = String::new();
        r.push(d);
        assert(r@ =~= seq![digit(n as nat)]);
        r
    } else {
        let mut r = u128_to_string(n / 10);
        r.push(d);
        r
    }
}


// ------------------------------------------------------------ comparisons

/// `char::to_ascii_lowercase`.
pub open spec fn ascii_lower(c: char) -> char {
    if 'A' <= c && c <= 'Z' {
        ((c as u8 + 32) as u8) as char
    } else {
        c
    }
}

fn ascii_lower_char(c: char) -> (r: char)
    ensures
        r == ascii_lower(c),
{
    if 'A' <= c && c <= 'Z' {
        (c as u8 + 32) as char
    } else {
        c
    }
}

/// `str::eq_ignore_ascii_case`: equal once ASCII letters are lowered.
pub open spec fn eq_ignore_ascii_case_spec(a: Seq<char>, b: Seq<char>) -> bool {
    a.len() == b.len() && forall|i: int| 0 <= i < a.len() ==> ascii_lower(a[i]) == ascii_lower(b[i])
}

pub fn eq_ignore_ascii_case(a: &str, b: &str) -> (r: bool)
    ensures
        r == eq_ignore_ascii_case_spec(a@, b@),
{
    let x = chars_of(a);
    let y = chars_of(b);
    if x.len() != y.len() {
        return false;
    }
    let mut i: usize = 0;
    while i < x.len()
        invariant
            i <= x.len(),
            x.len() == y.len(),
            x@ == a@,
            y@ == b@,
            forall|j: int| 0 <= j < i ==> ascii_lower(a@[j]) == ascii_lower(b@[j]),
        decreases x.len() - i,
    {
        if ascii_lower_char(x[i]) != ascii_lower_char(y[i]) {
            return false;
        }
        i = i + 1;
    }
    true
}

/// Some character of `s` is whitespace.
pub open spec fn any_ws(s: Seq<char>) -> bool {
    exists|i: int| 0 <= i < s.len() && is_ws(s[i])
}

pub fn has_whitespace(s: &str) -> (r: bool)
    ensures
        r == any_ws(s@),
{
    let v = chars_of(s);
    let mut i: usize = 0;
    while i < v.len()
        invariant
            i <= v.len(),
            v@ == s@,
            forall|j: int| 0 <= j < i ==> !is_ws(s@[j]),
        decreases v.len() - i,
    {
        if is_ws_char(v[i]) {
            return true;
        }
        i = i + 1;
    }
    false
}

/// `s.is_empty()`.
pub fn is_empty_str(s: &str) -> (r: bool)
    ensures
        r == (s@.len() == 0),
{
    s.unicode_len() == 0
}

// ---------------------------------------------------------------- parsing

pub open spec fn is_digit(c: char) -> bool {
    '0' <= c && c <= '9'
}

/// Value of a sequence of ASCII digits.
pub open spec fn digits_value(d: Seq<char>) -> nat
    decreases d.len(),
{
    if d.len() == 0 {
        0
    } else {
        digits_value(d.drop_last()) * 10 + ((d.last() as u32) - 48) as nat
    }
}

/// `u16::from_str`: an optional `+`, then at least one ASCII digit, and a
/// value that fits.
pub open spec fn parse_u16_spec(s: Seq<char>) -> Option<u16> {
    let d = unsigned_digits(s);
    if d.len() == 0 || !all_digits(d) {
        None
    } else if digits_value(d) > 65535 {
        None
    } else {
        Some(digits_value(d) as u16)
    }
}

/// `s` without its optional leading `+`.
pub open spec fn unsigned_digits(s: Seq<char>) -> Seq<char> {
    if s.len() > 0 && s[0] == '+' {
        s.drop_first()
    } else {
        s
    }
}

pub open spec fn all_digits(d: Seq<char>) -> bool {
    forall|i: int| 0 <= i < d.len() ==> is_digit(#[trigger] d[i])
}

proof fn lemma_digits_value_grows(d: Seq<char>, k: int)
    requires
        0 <= k <= d.len(),
        all_digits(d),
    ensures
        digits_value(d.take(k)) <= digits_value(d),
    decreases d.len() - k,
{
    if k < d.len() {
        lemma_digits_value_grows(d, k + 1);
        assert(d.take(k + 1).drop_last() =~= d.take(k));
    } else {
        assert(d.take(k) =~= d);
    }
}

pub fn parse_u16(s: &str) -> (r: Option<u16>)
    ensures
        r == parse_u16_spec(s@),
{
    let v = chars_of(s);
    let start: usize = if v.len() > 0 && v[0] == '+' { 1 } else { 0 };
    let ghost d = unsigned_digits(s@);
    assert(d =~= v@.subrange(start as int, v@.len() as int));
    if start == v.len() {
        return None;
    }
    let mut value: u32 = 0;
    let mut i: usize = start;
    while i < v.len()
        invariant
            start <= i <= v.len(),
            v@ == s@,
            d == unsigned_digits(s@),
            d =~= v@.subrange(start as int, v@.len() as int),
            forall|j: int| start <= j < i ==> is_digit(v@[j]),
            value == digits_value(d.take(i - start)),
            value <= u16::MAX,
        decreases v.len() - i,
    {
        let c = v[i];
        if !('0' <= c && c <= '9') {
            assert(!is_digit(d[i - start]));
            return None;
        }
        let ghost pre = d.take(i - start);
        let ghost post = d.take(i - start + 1);
        assert(post.drop_last() =~= pre);
        assert(post.last() == c);
        let next = value * 10 + (c as u32 - 48);
        if next > 65535 {
            proof {
                if all_digits(d) {
                    lemma_digits_value_grows(d, i - start + 1);
                }
            }
            return None;
        }
        value = next;
        i = i + 1;
    }
    assert(d.take(i - start) =~= d);
    Some(value as u16)
}


// --------------------------------------------------------------- trimming

/// `s.trim_end_matches(c)`.
pub open spec fn trim_end_char_seq(s: Seq<char>, c: char) -> Seq<char>
    decreases s.len(),
{
    if s.len() > 0 && s.last() == c {
        trim_end_char_seq(s.drop_last(), c)
    } else {
        s
    }
}

pub fn trim_end_char(s: &str, c: char) -> (r: String)
    ensures
        r@ == trim_end_char_seq(s@, c),
{
    let v = chars_of(s);
    let mut k: usize = v.len();
    assert(v@.subrange(0, k as int) =~= s@);
    while k > 0 && v[k - 1] == c
        invariant
            k <= v.len(),
            v@ == s@,
            trim_end_char_seq(s@, c) == trim_end_char_seq(v@.subrange(0, k as int), c),
        decreases k,
    {
        assert(v@.subrange(0, k as int).drop_last() =~= v@.subrange(0, k - 1));
        k = k - 1;
    }
    let mut r = String::new();
    let mut p: usize = 0;
    while p < k
        invariant
            p <= k <= v.len(),
            r@ == v@.subrange(0, p as int),
        decreases k - p,
    {
        r.push(v[p]);
        p = p + 1;
        assert(r@ =~= v@.subrange(0, p as int));
    }
    r
}


// ------------------------------------------------------------ formatting

/// Decimal representation of a signed integer (`i64::to_string`).
pub open spec fn signed_decimal(i: int) -> Seq<char> {
    if i < 0 {
        seq!['-'] + decimal((-i) as nat)
    } else {
        decimal(i as nat)
    }
}

pub fn i64_to_string(i: i64) -> (r: String)
    ensures
        r@ == signed_decimal(i as int),
{
    if i < 0 {
        let m: u64 = if i == i64::MIN {
            9223372036854775808u64
        } else {
            (-i) as u64
        };
        let mut r = String::new();
        r.push('-');
        r.append(u64_to_string(m).as_str());
        assert(r@ =~= seq!['-'] + decimal((-i) as nat));
        r
    } else {
        u64_to_string(i as u64)
    }
}

/// A lowercase hexadecimal digit.
pub open spec fn hex_digit(d: nat) -> char {
    if d < 10 {
        ((48 + d) as u8) as char
    } else {
        ((87 + d) as u8) as char
    }
}

/// The last `k` hexadecimal digits of `n`, zero-padded (`{:0k$x}` for a
/// value below `16^k`).
pub open spec fn hex_fixed(n: nat, k: nat) -> Seq<char>
    decreases k,
{
    if k == 0 {
        Seq::empty()
    } else {
        hex_fixed(n / 16, (k - 1) as nat).push(hex_digit(n % 16))
    }
}

fn hex_fixed_exec(n: u32, k: u32) -> (r: String)
    ensures
        r@ == hex_fixed(n as nat, k as nat),
    decreases k,
{
    if k == 0 {
        return String::new();
    }
    let mut r = hex_fixed_exec(n / 16, k - 1);
    let d = (n % 16) as u8;
    let c = if d < 10 { (48 + d) as char } else { (87 + d) as char };
    r.push(c);
    r
}

/// `format!("{:02x}", b)`.
pub fn hex2(b: u8) -> (r: String)
    ensures
        r@ == hex_fixed(b as nat, 2),
{
    hex_fixed_exec(b as u32, 2)
}

/// `format!("{:08x}", n)`.
pub fn hex8(n: u32) -> (r: String)
    ensures
        r@ == hex_fixed(n as nat, 8),
{
    hex_fixed_exec(n, 8)
}

} // verus!
