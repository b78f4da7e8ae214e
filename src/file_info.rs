use vstd::prelude::*;

verus! {

/// What the path of a container log file tells about its origin.
#[derive(Clone, Debug, PartialEq, Eq)]
pub struct LogFileInfo {
    pub pod_namespace: String,
    pub pod_name: String,
    pub pod_uid: String,
    pub container_name: String,
}

/// The strings of a [`LogFileInfo`].
pub struct LogFileInfoView {
    pub pod_namespace: Seq<char>,
    pub pod_name: Seq<char>,
    pub pod_uid: Seq<char>,
    pub container_name: Seq<char>,
}

impl View for LogFileInfo {
    type V = LogFileInfoView;

    open spec fn view(&self) -> LogFileInfoView {
        LogFileInfoView {
            pod_namespace: self.pod_namespace@,
            pod_name: self.pod_name@,
            pod_uid: self.pod_uid@,
            container_name: self.container_name@,
        }
    }
}

/// The pieces of `s` between occurrences of `sep`, in order; `s` without
/// `sep` is one piece.
pub open spec fn split(s: Seq<char>, sep: char) -> Seq<Seq<char>>
    decreases s.len(),
{
    if s.len() == 0 {
        seq![Seq::empty()]
    } else {
        let r = split(s.drop_last(), sep);
        if s.last() == sep {
            r.push(Seq::empty())
        } else {
            r.update(r.len() - 1, r.last().push(s.last()))
        }
    }
}

/// Whether a file name ends in `.log`.
pub open spec fn is_log_file_name(s: Seq<char>) -> bool {
    s.len() >= 4 && s.subrange(s.len() - 4, s.len() as int) == seq!['.', 'l', 'o', 'g']
}

/// The origin of a log file whose path ends in
/// `<namespace>_<pod name>_<pod uid>/<container name>/<file>.log`; `None` for
/// any other path.
pub open spec fn parse_spec(path: Seq<char>) -> Option<LogFileInfoView> {
    let parts = split(path, '/');
    let n = parts.len();
    if n < 3 || !is_log_file_name(parts[n - 1]) {
        None
    } else {
        let dir = split(parts[n - 3], '_');
        if dir.len() != 3 {
            None
        } else {
            Some(
                LogFileInfoView {
                    pod_namespace: dir[0],
                    pod_name: dir[1],
                    pod_uid: dir[2],
                    container_name: parts[n - 2],
                },
            )
        }
    }
}

proof fn lemma_split_nonempty(s: Seq<char>, sep: char)
    ensures
        split(s, sep).len() >= 1,
    decreases s.len(),
{
    if s.len() > 0 {
        lemma_split_nonempty(s.drop_last(), sep);
    }
}

/// The pieces of `s` between occurrences of `sep`.
pub fn split_on(s: &str, sep: char) -> (r: Vec<String>)
    ensures
        r.deep_view() == split(s@, sep),
{
    let n = s.unicode_len();
    let mut pieces: Vec<String> = Vec::new();
    let mut start: usize = 0;
    let mut i: usize = 0;
    assert(s@.subrange(0, 0) =~= Seq::<char>::empty());
    while i < n
        invariant
            n == s@.len(),
            start <= i <= n,
            pieces.deep_view().push(s@.subrange(start as int, i as int)) == split(
                s@.subrange(0, i as int),
                sep,
            ),
        decreases n - i,
    {
        let c = s.get_char(i);
        let ghost pre = s@.subrange(0, i as int);
        let ghost cur = s@.subrange(start as int, i as int);
        assert(s@.subrange(0, i + 1).drop_last() =~= pre);
        assert(s@.subrange(0, i + 1).last() == c);
        proof {
            lemma_split_nonempty(pre, sep);
        }
        if c == sep {
            let piece = s.substring_char(start, i).to_owned();
            pieces.push(piece);
            i = i + 1;
            start = i;
            assert(s@.subrange(start as int, i as int) =~= Seq::<char>::empty());
            assert(pieces.deep_view() =~= split(pre, sep).drop_last().push(cur));
        } else {
            i = i + 1;
            assert(s@.subrange(start as int, i as int) =~= cur.push(c));
            assert(pieces.deep_view().push(s@.subrange(start as int, i as int)) =~= split(
                pre,
                sep,
            ).update(split(pre, sep).len() - 1, split(pre, sep).last().push(c)));
        }
    }
    let last = s.substring_char(start, n).to_owned();
    pieces.push(last);
    assert(s@.subrange(0, n as int) =~= s@);
    pieces
}

fn is_log_file_name_exec(s: &String) -> (r: bool)
    ensures
        r == is_log_file_name(s@),
{
    let t = s.as_str();
    let n = t.unicode_len();
    if n < 4 {
        return false;
    }
    let r = t.get_char(n - 4) == '.' && t.get_char(n - 3) == 'l' && t.get_char(n - 2) == 'o'
        && t.get_char(n - 1) == 'g';
    assert(r ==> s@.subrange(n - 4, n as int) =~= seq!['.', 'l', 'o', 'g']);
    assert(s@.subrange(n - 4, n as int) == seq!['.', 'l', 'o', 'g'] ==> s@.subrange(
        n - 4,
        n as int,
    )[0] == '.' && s@.subrange(n - 4, n as int)[1] == 'l' && s@.subrange(n - 4, n as int)[2]
        == 'o' && s@.subrange(n - 4, n as int)[3] == 'g');
    r
}

/// Reads the pod and container that a log file belongs to from its path.
pub fn parse_log_file_path(path: &str) -> (r: Option<LogFileInfo>)
    ensures
        match parse_spec(path@) {
            Some(v) => r is Some && r.unwrap()@ == v,
            None => r is None,
        },
{
    let parts = split_on(path, '/');
    let n = parts.len();
    if n < 3 {
        return None;
    }
    assert(parts[n - 1]@ == parts.deep_view()[n - 1]);
    if !is_log_file_name_exec(&parts[n - 1]) {
        return None;
    }
    let dir = split_on(parts[n - 3].as_str(), '_');
    assert(parts[n - 3]@ == parts.deep_view()[n - 3]);
    if dir.len() != 3 {
        return None;
    }
    let info = LogFileInfo {
        pod_namespace: dir[0].clone(),
        pod_name: dir[1].clone(),
        pod_uid: dir[2].clone(),
        container_name: parts[n - 2].clone(),
    };
    assert(dir[0]@ == dir.deep_view()[0] && dir[1]@ == dir.deep_view()[1] && dir[2]@
        == dir.deep_view()[2] && parts[n - 2]@ == parts.deep_view()[n - 2]);
    Some(info)
}

} // verus!
