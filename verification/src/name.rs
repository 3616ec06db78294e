//! Name extraction: derives a bounded, sanitized project name from a
//! repository URL. Total: every input yields a name, the fallback when no
//! usable path segment exists.

use vstd::prelude::*;
use vstd::string::StringExecFns;
use crate::text::is_name_char;
use crate::text::name_char;
use crate::text::push_char;
use crate::text::str_chars;

verus! {

/// The fixed fallback project name.
pub open spec fn fallback_name() -> Seq<char> {
    "Dev Project"@
}

/// Index of the last `/` in `s`, or -1 if `s` has none.
pub open spec fn last_slash(s: Seq<char>) -> int
    decreases s.len(),
{
    if s.len() == 0 {
        -1
    } else if s[s.len() - 1] == '/' {
        s.len() - 1
    } else {
        last_slash(s.drop_last())
    }
}

/// `s` with one trailing `/` removed, if present.
pub open spec fn strip_slash(s: Seq<char>) -> Seq<char> {
    if s.len() > 0 && s[s.len() - 1] == '/' {
        s.drop_last()
    } else {
        s
    }
}

/// `s` ends with the literal `.git`.
pub open spec fn ends_with_git(s: Seq<char>) -> bool {
    s.len() >= 4 && s[s.len() - 4] == '.' && s[s.len() - 3] == 'g' && s[s.len() - 2] == 'i'
        && s[s.len() - 1] == 't'
}

/// `s` with a trailing `.git` removed, if present.
pub open spec fn strip_git(s: Seq<char>) -> Seq<char> {
    if ends_with_git(s) {
        s.subrange(0, s.len() - 4)
    } else {
        s
    }
}

/// Every character outside `[A-Za-z0-9_-]` replaced by `_`; length kept.
pub open spec fn sanitize(s: Seq<char>) -> Seq<char> {
    Seq::new(s.len(), |i: int| if name_char(s[i]) { s[i] } else { '_' })
}

/// The raw repository segment of `url`: the text after the last `/` of the
/// trimmed URL, with a trailing `.git` removed.
pub open spec fn raw_segment(url: Seq<char>) -> Seq<char> {
    let t = strip_slash(url);
    strip_git(t.subrange(last_slash(t) + 1, t.len() as int))
}

/// The derived project name: the sanitized raw segment when the trimmed URL
/// has a separator and the segment is non-empty and at most 32 characters;
/// otherwise the fallback name.
pub open spec fn extract_name(url: Seq<char>) -> Seq<char> {
    let t = strip_slash(url);
    if last_slash(t) >= 0 {
        let seg = raw_segment(url);
        if 0 < seg.len() && seg.len() <= 32 {
            sanitize(seg)
        } else {
            fallback_name()
        }
    } else {
        fallback_name()
    }
}

proof fn lemma_last_slash_at(s: Seq<char>, p: int)
    requires
        0 <= p < s.len(),
        s[p] == '/',
        forall|i: int| p < i < s.len() ==> s[i] != '/',
    ensures
        last_slash(s) == p,
    decreases s.len(),
{
    if p < s.len() - 1 {
        lemma_last_slash_at(s.drop_last(), p);
    }
}

proof fn lemma_no_slash(s: Seq<char>)
    requires
        forall|i: int| 0 <= i < s.len() ==> s[i] != '/',
    ensures
        last_slash(s) == -1,
    decreases s.len(),
{
    if s.len() > 0 {
        lemma_no_slash(s.drop_last());
    }
}

/// The derived project name never exceeds 32 characters: the sanitized
/// segment is only chosen when the segment is that short, and sanitizing
/// keeps the length; the fallback has 11 characters.
pub proof fn lemma_extract_name_bounded(url: Seq<char>)
    ensures
        extract_name(url).len() <= 32,
{
    reveal_strlit("Dev Project");
}

/// The general law of the extractor on well-formed repository URLs
/// `https://github.com/{owner}/{repo}`, optionally followed by `.git` and
/// then optionally by one trailing `/`: the result is `repo` with every
/// character outside `[A-Za-z0-9_-]` replaced by `_` whenever `repo` has
/// at most 32 characters, and the fallback name otherwise — truncation is
/// never applied silently. `repo` is a non-empty segment without `/`, and
/// only an explicit `.git` marker is stripped.
pub proof fn lemma_extract_from_repo_url(
    url: Seq<char>,
    owner: Seq<char>,
    repo: Seq<char>,
    git: bool,
    slash: bool,
)
    requires
        url == "https://github.com/"@ + owner + seq!['/'] + repo + (if git {
            seq!['.', 'g', 'i', 't']
        } else {
            Seq::<char>::empty()
        }) + (if slash {
            seq!['/']
        } else {
            Seq::<char>::empty()
        }),
        repo.len() > 0,
        forall|i: int| 0 <= i < repo.len() ==> repo[i] != '/',
        !git ==> !ends_with_git(repo),
    ensures
        extract_name(url) == (if repo.len() <= 32 {
            sanitize(repo)
        } else {
            fallback_name()
        }),
{
    let p = "https://github.com/"@;
    let g: Seq<char> = if git {
        seq!['.', 'g', 'i', 't']
    } else {
        Seq::<char>::empty()
    };
    let u0 = p + owner + seq!['/'] + repo + g;
    let k = p.len() + owner.len() as int;
    if slash {
        assert(url[url.len() - 1] == '/');
        assert(strip_slash(url) =~= u0);
    } else {
        if git {
            assert(u0[u0.len() - 1] == 't');
        } else {
            assert(u0[u0.len() - 1] == repo[repo.len() - 1]);
        }
        assert(strip_slash(url) =~= u0);
    }
    assert(u0[k] == '/');
    assert forall|i: int| k < i < u0.len() implies u0[i] != '/' by {
        if i < k + 1 + repo.len() {
            assert(u0[i] == repo[i - k - 1]);
        } else {
            assert(u0[i] == g[i - (k + 1 + repo.len())]);
        }
    }
    lemma_last_slash_at(u0, k);
    let seg0 = u0.subrange(k + 1, u0.len() as int);
    assert(seg0 =~= repo + g);
    if git {
        assert(seg0[seg0.len() - 4] == g[0]);
        assert(seg0[seg0.len() - 3] == g[1]);
        assert(seg0[seg0.len() - 2] == g[2]);
        assert(seg0[seg0.len() - 1] == g[3]);
        assert(ends_with_git(seg0));
        assert(strip_git(seg0) =~= repo);
    } else {
        assert(seg0 =~= repo);
    }
    assert(raw_segment(url) == strip_git(seg0));
}

/// Derives the project name from a repository URL. Never fails: inputs
/// without a usable segment give the fallback name.
pub fn extract_repo_name(github_url: &str) -> (name: String)
    ensures
        name@ == extract_name(github_url@),
        name@.len() <= 32,
{
    proof {
        lemma_extract_name_bounded(github_url@);
    }
    let mut cs = str_chars(github_url);
    if cs.len() > 0 && cs[cs.len() - 1] == '/' {
        let _ = cs.pop();
    }
    proof {
        assert(cs@ =~= strip_slash(github_url@));
    }
    let n = cs.len();
    let mut j: usize = n;
    while j > 0 && cs[j - 1] != '/'
        invariant
            j <= n,
            n == cs@.len(),
            forall|k: int| j <= k < n ==> cs@[k] != '/',
        decreases j,
    {
        j -= 1;
    }
    if j == 0 {
        proof {
            lemma_no_slash(cs@);
        }
        let f = String::from_str("Dev Project");
        return f;
    }
    proof {
        lemma_last_slash_at(cs@, j - 1);
    }
    let seg_start = j;
    let mut seg_end = n;
    let ghost seg0 = cs@.subrange(seg_start as int, n as int);
    if n - j >= 4 && cs[n - 4] == '.' && cs[n - 3] == 'g' && cs[n - 2] == 'i' && cs[n - 1] == 't' {
        seg_end = n - 4;
        proof {
            assert(ends_with_git(seg0));
        }
    } else {
        proof {
            assert(!ends_with_git(seg0));
        }
    }
    let ghost seg = cs@.subrange(seg_start as int, seg_end as int);
    proof {
        assert(seg =~= strip_git(seg0));
        assert(seg == raw_segment(github_url@));
    }
    let len = seg_end - seg_start;
    if 1 <= len && len <= 32 {
        let mut out = String::new();
        let mut k = seg_start;
        while k < seg_end
            invariant
                seg_start <= k <= seg_end,
                seg_end <= cs@.len(),
                seg == cs@.subrange(seg_start as int, seg_end as int),
                out@ =~= sanitize(seg).subrange(0, k - seg_start),
            decreases seg_end - k,
        {
            let c = cs[k];
            if is_name_char(c) {
                push_char(&mut out, c);
            } else {
                push_char(&mut out, '_');
            }
            k += 1;
            proof {
                assert(out@ =~= sanitize(seg).subrange(0, k - seg_start));
            }
        }
        proof {
            assert(out@ =~= sanitize(seg));
        }
        out
    } else {
        let f = String::from_str("Dev Project");
        f
    }
}

} // verus!

