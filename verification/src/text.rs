use vstd::prelude::*;

verus! {

/// The characters that carry the Unicode `White_Space` property, which is
/// what `char::is_whitespace` and `str::trim` go by.
pub open spec fn is_white_space(c: char) -> bool {
    let u: u32 = c as u32;
    ||| 0x9 <= u <= 0xD
    ||| u == 0x20
    ||| u == 0x85
    ||| u == 0xA0
    ||| u == 0x1680
    ||| 0x2000 <= u <= 0x200A
    ||| u == 0x2028
    ||| u == 0x2029
    ||| u == 0x202F
    ||| u == 0x205F
    ||| u == 0x3000
}

/// `s` without its leading white space.
pub open spec fn trim_start(s: Seq<char>) -> Seq<char>
    decreases s.len(),
{
    if s.len() > 0 && is_white_space(s[0]) {
        trim_start(s.drop_first())
    } else {
        s
    }
}

/// `s` without its trailing white space.
pub open spec fn trim_end(s: Seq<char>) -> Seq<char>
    decreases s.len(),
{
    if s.len() > 0 && is_white_space(s.last()) {
        trim_end(s.drop_last())
    } else {
        s
    }
}

/// `s` without its leading and trailing white space.
pub open spec fn trimmed(s: Seq<char>) -> Seq<char> {
    trim_end(trim_start(s))
}

/// Whether every character of `s` is white space (so also when `s` is empty).
pub open spec fn is_blank(s: Seq<char>) -> bool {
    forall|i: int| 0 <= i < s.len() ==> #[trigger] is_white_space(s[i])
}

/// Tells whether `c` is white space.
pub fn is_white_space_char(c: char) -> (b: bool)
    ensures
        b == is_white_space(c),
{
    let u: u32 = c as u32;
    (0x9 <= u && u <= 0xD) || u == 0x20 || u == 0x85 || u == 0xA0 || u == 0x1680 || (0x2000
        <= u && u <= 0x200A) || u == 0x2028 || u == 0x2029 || u == 0x202F || u == 0x205F || u
        == 0x3000
}

/// Returns `s` without its leading and trailing white space.
pub fn trim(s: &str) -> (t: &str)
    ensures
        t@ == trimmed(s@),
{
    let n: usize = s.unicode_len();
    let mut i: usize = 0;
    assert(s@.skip(0) =~= s@);
    while i < n && is_white_space_char(s.get_char(i))
        invariant
            i <= n,
            n == s@.len(),
            trim_start(s@) == trim_start(s@.skip(i as int)),
        decreases n - i,
    {
        assert(s@.skip(i as int).drop_first() =~= s@.skip(i + 1));
        i = i + 1;
    }
    assert(trim_start(s@.skip(i as int)) == s@.skip(i as int));
    assert(s@.skip(i as int) =~= s@.subrange(i as int, n as int));
    let mut j: usize = n;
    while j > i && is_white_space_char(s.get_char(j - 1))
        invariant
            i <= j <= n,
            n == s@.len(),
            trimmed(s@) == trim_end(s@.subrange(i as int, j as int)),
        decreases j,
    {
        assert(s@.subrange(i as int, j as int).drop_last() =~= s@.subrange(i as int, j - 1));
        j = j - 1;
    }
    s.substring_char(i, j)
}

/// Leading white space is gone after `trim_start`.
proof fn lemma_trim_start_head(s: Seq<char>)
    ensures
        trim_start(s).len() == 0 || !is_white_space(trim_start(s)[0]),
        trim_start(s).len() == 0 <==> is_blank(s),
    decreases s.len(),
{
    if s.len() > 0 && is_white_space(s[0]) {
        lemma_trim_start_head(s.drop_first());
        if is_blank(s.drop_first()) {
            assert forall|i: int| 0 <= i < s.len() implies #[trigger] is_white_space(s[i]) by {
                if i > 0 {
                    assert(s[i] == s.drop_first()[i - 1]);
                }
            }
        }
        if is_blank(s) {
            assert forall|i: int| 0 <= i < s.drop_first().len() implies #[trigger] is_white_space(
                s.drop_first()[i],
            ) by {
                assert(s.drop_first()[i] == s[i + 1]);
            }
        }
    } else if s.len() > 0 {
        assert(!is_white_space(s[0]));
    }
}

/// Trailing white space is gone after `trim_end`, which keeps a prefix.
proof fn lemma_trim_end_tail(s: Seq<char>)
    ensures
        trim_end(s).len() <= s.len(),
        trim_end(s) =~= s.subrange(0, trim_end(s).len() as int),
        trim_end(s).len() == 0 || !is_white_space(trim_end(s).last()),
        trim_end(s).len() == 0 <==> is_blank(s),
    decreases s.len(),
{
    if s.len() > 0 && is_white_space(s.last()) {
        let p = s.drop_last();
        lemma_trim_end_tail(p);
        assert(p.subrange(0, trim_end(p).len() as int) =~= s.subrange(
            0,
            trim_end(p).len() as int,
        ));
        if is_blank(p) {
            assert forall|i: int| 0 <= i < s.len() implies #[trigger] is_white_space(s[i]) by {
                if i < s.len() - 1 {
                    assert(s[i] == p[i]);
                }
            }
        }
        if is_blank(s) {
            assert forall|i: int| 0 <= i < p.len() implies #[trigger] is_white_space(p[i]) by {
                assert(p[i] == s[i]);
            }
        }
    } else if s.len() > 0 {
        assert(!is_white_space(s[s.len() - 1]));
    }
}

/// Trimming is idempotent: a trimmed text has no white space left at
/// either end.
pub proof fn lemma_trim_idempotent(s: Seq<char>)
    ensures
        trimmed(trimmed(s)) == trimmed(s),
        trimmed(s).len() == 0 || (!is_white_space(trimmed(s)[0]) && !is_white_space(
            trimmed(s).last(),
        )),
{
    let t = trim_start(s);
    lemma_trim_start_head(s);
    lemma_trim_end_tail(t);
    let u = trim_end(t);
    if u.len() > 0 {
        assert(u[0] == t[0]);
    }
    assert(trim_start(u) == u);
    lemma_trim_end_tail(u);
    assert(trim_end(u) == u);
}

/// A text trims to nothing exactly when it is all white space.
pub proof fn lemma_trim_blank(s: Seq<char>)
    ensures
        trimmed(s).len() == 0 <==> is_blank(s),
{
    let t = trim_start(s);
    lemma_trim_start_head(s);
    lemma_trim_end_tail(t);
    if t.len() > 0 {
        assert(!is_white_space(t[0]));
        assert(!is_blank(t));
    }
}

/// Where `trim_start` cuts: after a run of white space, at the first
/// character that is not white space.
proof fn lemma_trim_start_cut(s: Seq<char>) -> (i: int)
    ensures
        0 <= i <= s.len(),
        trim_start(s) == s.skip(i),
        forall|k: int| 0 <= k < i ==> #[trigger] is_white_space(s[k]),
        i < s.len() ==> !is_white_space(s[i]),
    decreases s.len(),
{
    if s.len() > 0 && is_white_space(s[0]) {
        let i0 = lemma_trim_start_cut(s.drop_first());
        assert(s.drop_first().skip(i0) =~= s.skip(i0 + 1));
        assert forall|k: int| 0 <= k < i0 + 1 implies #[trigger] is_white_space(s[k]) by {
            if k > 0 {
                assert(s[k] == s.drop_first()[k - 1]);
            }
        }
        if i0 + 1 < s.len() {
            assert(s[i0 + 1] == s.drop_first()[i0]);
        }
        i0 + 1
    } else {
        assert(s.skip(0) =~= s);
        0
    }
}

/// Where `trim_end` cuts: before a run of white space, after the last
/// character that is not white space.
proof fn lemma_trim_end_cut(s: Seq<char>) -> (j: int)
    ensures
        0 <= j <= s.len(),
        trim_end(s) == s.take(j),
        forall|k: int| j <= k < s.len() ==> #[trigger] is_white_space(s[k]),
        j > 0 ==> !is_white_space(s[j - 1]),
    decreases s.len(),
{
    if s.len() > 0 && is_white_space(s.last()) {
        let p = s.drop_last();
        let j0 = lemma_trim_end_cut(p);
        assert(p.take(j0) =~= s.take(j0));
        assert forall|k: int| j0 <= k < s.len() implies #[trigger] is_white_space(s[k]) by {
            if k < s.len() - 1 {
                assert(s[k] == p[k]);
            }
        }
        if j0 > 0 {
            assert(s[j0 - 1] == p[j0 - 1]);
        }
        j0
    } else {
        assert(s.take(s.len() as int) =~= s);
        s.len() as int
    }
}

/// Trimming keeps the contiguous middle of a text: what it removes in
/// front and at the back is white space only, and what it keeps begins and
/// ends with a character that is not white space.
pub proof fn lemma_trim_keeps_the_middle(s: Seq<char>)
    ensures
        exists|i: int, j: int|
            {
                &&& 0 <= i <= j <= s.len()
                &&& trimmed(s) == s.subrange(i, j)
                &&& forall|k: int| 0 <= k < i ==> #[trigger] is_white_space(s[k])
                &&& forall|k: int| j <= k < s.len() ==> #[trigger] is_white_space(s[k])
                &&& i < j ==> !is_white_space(s[i]) && !is_white_space(s[j - 1])
            },
{
    let i = lemma_trim_start_cut(s);
    let t = s.skip(i);
    let j0 = lemma_trim_end_cut(t);
    let j = i + j0;
    assert(t.take(j0) =~= s.subrange(i, j));
    assert forall|k: int| j <= k < s.len() implies #[trigger] is_white_space(s[k]) by {
        assert(s[k] == t[k - i]);
    }
    if i < j {
        assert(s[j - 1] == t[j0 - 1]);
    }
    assert(trimmed(s) == s.subrange(i, j));
}

/// The embedding text of a query is `query: ` followed by the whole query.
pub proof fn lemma_query_prompt_whole(query: Seq<char>)
    ensures
        query_prompt(query).len() == query.len() + 7,
        query_prompt(query).take(7) == seq!['q', 'u', 'e', 'r', 'y', ':', ' '],
        query_prompt(query).skip(7) == query,
{
    reveal_strlit("query: ");
    assert(query_prompt(query).take(7) =~= seq!['q', 'u', 'e', 'r', 'y', ':', ' ']);
    assert(query_prompt(query).skip(7) =~= query);
}

/// The embedding text of a recipe holds each field whole, in the layout
/// `passage: <title>. <description>. Ingredients: <ingredients>`.
pub proof fn lemma_document_prompt_whole(
    title: Seq<char>,
    description: Seq<char>,
    ingredients: Seq<char>,
)
    ensures
        ({
            let p = document_prompt(title, description, ingredients);
            let a: int = 9 + title.len() as int;
            let b: int = a + 2 + description.len() as int;
            &&& p.len() == 26 + title.len() + description.len() + ingredients.len()
            &&& p.take(9) == seq!['p', 'a', 's', 's', 'a', 'g', 'e', ':', ' ']
            &&& p.subrange(9, a) == title
            &&& p.subrange(a, a + 2) == seq!['.', ' ']
            &&& p.subrange(a + 2, b) == description
            &&& p.subrange(b, b + 15) == seq![
                '.',
                ' ',
                'I',
                'n',
                'g',
                'r',
                'e',
                'd',
                'i',
                'e',
                'n',
                't',
                's',
                ':',
                ' ',
            ]
            &&& p.skip(b + 15) == ingredients
        }),
{
    reveal_strlit("passage: ");
    reveal_strlit(". ");
    reveal_strlit(". Ingredients: ");
    let p = document_prompt(title, description, ingredients);
    let a: int = 9 + title.len() as int;
    let b: int = a + 2 + description.len() as int;
    assert(p.take(9) =~= seq!['p', 'a', 's', 's', 'a', 'g', 'e', ':', ' ']);
    assert(p.subrange(9, a) =~= title);
    assert(p.subrange(a, a + 2) =~= seq!['.', ' ']);
    assert(p.subrange(a + 2, b) =~= description);
    assert(p.subrange(b, b + 15) =~= seq![
        '.',
        ' ',
        'I',
        'n',
        'g',
        'r',
        'e',
        'd',
        'i',
        'e',
        'n',
        't',
        's',
        ':',
        ' ',
    ]);
    assert(p.skip(b + 15) =~= ingredients);
}

/// Text handed to the embedding model for a search query.
pub open spec fn query_prompt(query: Seq<char>) -> Seq<char> {
    "query: "@ + query
}

/// Text handed to the embedding model for a stored recipe.
pub open spec fn document_prompt(
    title: Seq<char>,
    description: Seq<char>,
    ingredients: Seq<char>,
) -> Seq<char> {
    "passage: "@ + title + ". "@ + description + ". Ingredients: "@ + ingredients
}

/// Builds the embedding text of a search query.
pub fn query_prompt_text(query: &str) -> (p: String)
    ensures
        p@ == query_prompt(query@),
{
    let mut p = String::from_str("query: ");
    p.append(query);
    p
}

/// Builds the embedding text of a recipe from its title, description and
/// ingredients.
pub fn document_prompt_text(title: &str, description: &str, ingredients: &str) -> (p: String)
    ensures
        p@ == document_prompt(title@, description@, ingredients@),
{
    let mut p = String::from_str("passage: ");
    p.append(title);
    p.append(". ");
    p.append(description);
    p.append(". Ingredients: ");
    p.append(ingredients);
    p
}

} // verus!
