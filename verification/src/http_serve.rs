use vstd::prelude::*;

verus! {

/// Whether `c` occurs in `s`.
pub open spec fn contains_char(s: Seq<char>, c: char) -> bool {
    exists|i: int| 0 <= i < s.len() && s[i] == c
}

/// Whether `pat` occurs in `s` as a contiguous substring.
pub open spec fn contains_sub(s: Seq<char>, pat: Seq<char>) -> bool {
    exists|i: int| 0 <= i && i + pat.len() <= s.len() && #[trigger] s.subrange(i, i + pat.len())
        == pat
}

/// Whether a directory listing shows this entry. The generated index file
/// itself is never listed, directories always are, and a file is listed
/// only when its name has a type suffix and is not hidden.
pub open spec fn entry_kept(name: Seq<char>, is_dir: bool) -> bool {
    &&& !contains_sub(name, "index.html"@)
    &&& (is_dir || (contains_char(name, '.') && !(name.len() > 0 && name[0] == '.')))
}

/// The list line for one kept entry.
pub open spec fn entry_line_of(name: Seq<char>, is_dir: bool) -> Seq<char> {
    if is_dir {
        "<li><a href=\"./"@ + name + "/\">"@ + name + "/</a></li>\n"@
    } else {
        "<li><a href=\"./"@ + name + "\">"@ + name + "</a></li>\n"@
    }
}

/// The list lines for a sequence of entries, in order, kept entries only.
pub open spec fn entries_html_of(entries: Seq<(Seq<char>, bool)>) -> Seq<char>
    decreases entries.len(),
{
    if entries.len() == 0 {
        Seq::empty()
    } else {
        entries_html_of(entries.drop_last()) + (if entry_kept(
            entries.last().0,
            entries.last().1,
        ) {
            entry_line_of(entries.last().0, entries.last().1)
        } else {
            Seq::empty()
        })
    }
}

/// The whole index page for a directory: a head naming the directory, a
/// parent link everywhere but at the root, and one line per kept entry.
pub open spec fn index_html_of(dir: Seq<char>, entries: Seq<(Seq<char>, bool)>, first: bool) -> Seq<
    char,
> {
    "<!DOCTYPE html>\n<html>\n<head>\n<title>"@ + dir + "</title>\n</head>\n<body>\n<h1>"@ + dir
        + " File List</h1>\n"@ + (if !first {
        "<li><a href=\"../\">../</a></li>\n"@
    } else {
        Seq::empty()
    }) + entries_html_of(entries) + "</ul>\n</body>\n</html>"@
}

/// The names and kinds of a directory's entries, as the renderer sees
/// them.
pub open spec fn entries_view(entries: Seq<(String, bool)>) -> Seq<(Seq<char>, bool)> {
    entries.map_values(|e: (String, bool)| (e.0@, e.1))
}

/// Whether `c` occurs in `s`, by scan.
fn str_contains_char(s: &str, c: char) -> (r: bool)
    ensures
        r == contains_char(s@, c),
{
    let n = s.unicode_len();
    let mut i: usize = 0;
    while i < n
        invariant
            n == s@.len(),
            i <= n,
            forall|j: int| 0 <= j < i ==> s@[j] != c,
        decreases n - i,
    {
        if s.get_char(i) == c {
            return true;
        }
        i = i + 1;
    }
    false
}

/// Whether `pat` occurs in `s` as a contiguous substring, by naive scan.
fn str_contains_sub(s: &str, pat: &str) -> (r: bool)
    requires
        pat@.len() > 0,
    ensures
        r == contains_sub(s@, pat@),
{
    let n = s.unicode_len();
    let m = pat.unicode_len();
    if m > n {
        assert(!contains_sub(s@, pat@));
        return false;
    }
    let mut i: usize = 0;
    while i <= n - m
        invariant
            n == s@.len(),
            m == pat@.len(),
            0 < m <= n,
            i <= n - m + 1,
            forall|k: int| 0 <= k < i ==> #[trigger] s@.subrange(k, k + pat@.len()) != pat@,
        decreases n - i,
    {
        let mut j: usize = 0;
        let mut matches_here = true;
        while j < m
            invariant
                n == s@.len(),
                m == pat@.len(),
                0 < m <= n,
                i <= n - m,
                j <= m,
                matches_here ==> forall|l: int| 0 <= l < j ==> s@[i + l] == pat@[l],
                !matches_here ==> exists|l: int| 0 <= l < m && s@[i + l] != #[trigger] pat@[l],
            decreases m - j,
        {
            if s.get_char(i + j) != pat.get_char(j) {
                proof {
                    assert(s@[i + j] != pat@[j as int]);
                }
                matches_here = false;
                j = m;
            } else {
                j = j + 1;
            }
        }
        if matches_here {
            proof {
                assert(s@.subrange(i as int, i + pat@.len()) =~= pat@);
            }
            return true;
        }
        proof {
            let l = choose|l: int| 0 <= l < m && s@[i + l] != #[trigger] pat@[l];
            if s@.subrange(i as int, i + pat@.len()) == pat@ {
                assert(s@.subrange(i as int, i + pat@.len())[l] == pat@[l]);
                assert(false);
            }
        }
        i = i + 1;
    }
    false
}

/// Render the index page for one directory. `dir_label` is the displayed
/// directory name; `entries` pairs each child's file name with whether it
/// is a directory; `first` marks the root of the walk, which gets no
/// parent link. The caller walks the filesystem; this renders exactly
/// `index_html_of` over what it found.
pub fn render_index_html(dir_label: &str, entries: &Vec<(String, bool)>, first: bool) -> (r:
    String)
    ensures
        r@ == index_html_of(dir_label@, entries_view(entries@), first),
{
    let mut out = String::new();
    out.append("<!DOCTYPE html>\n<html>\n<head>\n<title>");
    out.append(dir_label);
    out.append("</title>\n</head>\n<body>\n<h1>");
    out.append(dir_label);
    out.append(" File List</h1>\n");
    if !first {
        out.append("<li><a href=\"../\">../</a></li>\n");
    }
    let ghost head = out@;
    let n = entries.len();
    let mut i: usize = 0;
    proof {
        assert(entries_view(entries@).take(0) =~= Seq::empty());
        assert(entries_html_of(entries_view(entries@).take(0)) =~= Seq::empty());
        assert(out@ =~= head + entries_html_of(entries_view(entries@).take(0)));
    }
    while i < n
        invariant
            n == entries@.len(),
            i <= n,
            out@ == head + entries_html_of(entries_view(entries@).take(i as int)),
        decreases n - i,
    {
        let ghost prefix = entries_view(entries@).take(i as int);
        let name: &String = &entries[i].0;
        let is_dir = entries[i].1;
        proof {
            reveal_strlit("index.html");
            assert(("index.html")@.len() == 10);
        }
        let keep = !str_contains_sub(name.as_str(), "index.html") && {
            if is_dir {
                true
            } else {
                str_contains_char(name.as_str(), '.') && !(name.as_str().unicode_len() > 0
                    && name.as_str().get_char(0) == '.')
            }
        };
        proof {
            assert(keep == entry_kept(name@, is_dir));
        }
        let ghost before = out@;
        if keep {
            if is_dir {
                out.append("<li><a href=\"./");
                out.append(name.as_str());
                out.append("/\">");
                out.append(name.as_str());
                out.append("/</a></li>\n");
            } else {
                out.append("<li><a href=\"./");
                out.append(name.as_str());
                out.append("\">");
                out.append(name.as_str());
                out.append("</a></li>\n");
            }
            proof {
                assert(out@ =~= before + entry_line_of(name@, is_dir));
            }
        }
        proof {
            let full = entries_view(entries@);
            assert(full.take(i as int + 1).drop_last() =~= prefix);
            assert(full.take(i as int + 1).last() == (name@, is_dir));
            assert(entries_html_of(full.take(i as int + 1)) == entries_html_of(prefix) + (
            if entry_kept(name@, is_dir) {
                entry_line_of(name@, is_dir)
            } else {
                Seq::empty()
            }));
            assert(out@ =~= head + entries_html_of(full.take(i as int + 1)));
        }
        i = i + 1;
    }
    out.append("</ul>\n</body>\n</html>");
    proof {
        assert(entries_view(entries@).take(n as int) =~= entries_view(entries@));
        assert(out@ =~= index_html_of(dir_label@, entries_view(entries@), first));
    }
    out
}

} // verus!
