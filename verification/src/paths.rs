use vstd::prelude::*;

verus! {

/// `p` with every trailing path separator removed.
pub open spec fn strip_trailing_separators(p: Seq<char>) -> Seq<char>
    decreases p.len(),
{
    if p.len() > 0 && p.last() == '/' {
        strip_trailing_separators(p.drop_last())
    } else {
        p
    }
}

/// The longest suffix of `p` that contains no separator.
pub open spec fn suffix_after_separator(p: Seq<char>) -> Seq<char>
    decreases p.len(),
{
    if p.len() == 0 {
        p
    } else if p.last() == '/' {
        Seq::empty()
    } else {
        suffix_after_separator(p.drop_last()).push(p.last())
    }
}

/// The final component (file name) of the path `p`, if it has one.
///
/// Trailing separators are ignored; a path that is empty or consists of
/// separators alone (such as the filesystem root) has no file name.
pub open spec fn file_name_of(p: Seq<char>) -> Option<Seq<char>> {
    let stripped = strip_trailing_separators(p);
    if stripped.len() == 0 {
        None
    } else {
        Some(suffix_after_separator(stripped))
    }
}

/// `dir` and `name` joined into one path: a separator stands between
/// them unless `dir` is empty or already ends in one.
pub open spec fn join_path(dir: Seq<char>, name: Seq<char>) -> Seq<char> {
    if dir.len() == 0 {
        name
    } else if dir.last() == '/' {
        dir + name
    } else {
        dir + seq!['/'] + name
    }
}

/// Extracts the file name of `path`, as `file_name_of` describes it.
pub fn file_name(path: &str) -> (r: Option<&str>)
    ensures
        r matches Some(n) ==> file_name_of(path@) == Some(n@),
        r is None ==> file_name_of(path@) is None,
{
    let len = path.unicode_len();
    let mut end: usize = len;
    proof {
        assert(path@.take(len as int) =~= path@);
    }
    while end > 0 && path.get_char(end - 1) == '/'
        invariant
            end <= len,
            len == path@.len(),
            strip_trailing_separators(path@) == strip_trailing_separators(
                path@.take(end as int),
            ),
        decreases end,
    {
        proof {
            assert(path@.take(end as int).last() == '/');
            assert(path@.take(end as int).drop_last() =~= path@.take(end - 1));
        }
        end = end - 1;
    }
    if end == 0 {
        proof {
            assert(path@.take(0) =~= Seq::<char>::empty());
            assert(strip_trailing_separators(path@).len() == 0);
        }
        return None;
    }
    proof {
        assert(path@.take(end as int).last() != '/');
        assert(strip_trailing_separators(path@) == path@.take(end as int));
    }
    let ghost stripped = path@.take(end as int);
    let mut start: usize = end;
    proof {
        assert(stripped.subrange(end as int, end as int) =~= Seq::<char>::empty());
        assert(suffix_after_separator(stripped) + path@.subrange(end as int, end as int)
            =~= suffix_after_separator(stripped));
    }
    while start > 0 && path.get_char(start - 1) != '/'
        invariant
            start <= end <= path@.len(),
            stripped == path@.take(end as int),
            suffix_after_separator(stripped) == suffix_after_separator(
                path@.take(start as int),
            ) + path@.subrange(start as int, end as int),
        decreases start,
    {
        proof {
            let before = path@.take(start as int);
            assert(before.last() == path@[start - 1]);
            assert(before.drop_last() =~= path@.take(start - 1));
            assert(suffix_after_separator(before) == suffix_after_separator(
                path@.take(start - 1),
            ).push(path@[start - 1]));
            assert(suffix_after_separator(path@.take(start - 1)) + path@.subrange(
                start - 1,
                end as int,
            ) =~= suffix_after_separator(before) + path@.subrange(start as int, end as int));
        }
        start = start - 1;
    }
    proof {
        if start == 0 {
            assert(path@.take(0) =~= Seq::<char>::empty());
            assert(suffix_after_separator(path@.take(0)).len() == 0);
        } else {
            assert(path@.take(start as int).last() == '/');
            assert(suffix_after_separator(path@.take(start as int)).len() == 0);
        }
        assert(suffix_after_separator(stripped) =~= path@.subrange(start as int, end as int));
    }
    Some(path.substring_char(start, end))
}

/// Joins `dir` and `name` into one path, as `join_path` describes it.
pub fn join(dir: &str, name: &str) -> (r: String)
    ensures
        r@ == join_path(dir@, name@),
{
    let dir_len = dir.unicode_len();
    if dir_len == 0 {
        name.to_owned()
    } else if dir.get_char(dir_len - 1) == '/' {
        dir.to_owned().concat(name)
    } else {
        let r = dir.to_owned().concat("/").concat(name);
        proof {
            reveal_strlit("/");
            assert(("/")@ =~= seq!['/']);
            assert(r@ =~= dir@ + seq!['/'] + name@);
        }
        r
    }
}

} // verus!
