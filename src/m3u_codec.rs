use vstd::prelude::*;

verus! {

/// The texts of a list of strings.
pub open spec fn texts_of(v: Seq<String>) -> Seq<Seq<char>> {
    v.map_values(|s: String| s@)
}

/// The playlist file that lists `paths`: each path on a line of its own.
pub open spec fn m3u_text_of(paths: Seq<Seq<char>>) -> Seq<char>
    decreases paths.len(),
{
    if paths.len() == 0 {
        Seq::empty()
    } else {
        m3u_text_of(paths.drop_last()) + paths.last() + seq!['\n']
    }
}

/// The characters that Rust's `char::is_whitespace` accepts.
pub open spec fn is_white(c: char) -> bool {
    c == '\t' || c == '\n' || c == '\u{0B}' || c == '\u{0C}' || c == '\r' || c == ' ' || c
        == '\u{85}' || c == '\u{A0}' || c == '\u{1680}' || ('\u{2000}' <= c && c <= '\u{200A}') || c
        == '\u{2028}' || c == '\u{2029}' || c == '\u{202F}' || c == '\u{205F}' || c == '\u{3000}'
}

/// An absolute path that a playlist file holds on one line, read back as it
/// stands: it starts with `/`, has no line feed and does not end in whitespace.
pub open spec fn is_plain_path(p: Seq<char>) -> bool {
    &&& p.len() > 0
    &&& p[0] == '/'
    &&& !p.contains('\n')
    &&& !is_white(p.last())
}

/// The path `p` read from a playlist file, taken relative to `cwd` unless it is
/// absolute; a separator is put between the two where `cwd` does not end in one.
pub open spec fn resolved(cwd: Seq<char>, p: Seq<char>) -> Seq<char> {
    if p.len() > 0 && p[0] == '/' {
        p
    } else if cwd.len() == 0 {
        p
    } else if cwd.last() == '/' {
        cwd + p
    } else {
        cwd + seq!['/'] + p
    }
}

/// The paths of the path entries that the m3u crate reads from a playlist file.
pub uninterp spec fn m3u_path_entries(text: Seq<char>) -> Seq<Seq<char>>;

/// Relies on m3u's `EntryWriter::write_entry` for a path entry: it writes the
/// path as it stands and a line feed (writing into a `Vec<u8>` does not fail).
#[verifier::external_body]
fn m3u_path_line(path: &String) -> (r: String)
    ensures
        r@ == path@ + seq!['\n'],
{
    let mut buf: Vec<u8> = Vec::new();
    let mut writer = m3u::Writer::new(&mut buf);
    let _ = writer.write_entry(&m3u::path_entry(path.as_str()));
    drop(writer);
    String::from_utf8_lossy(&buf).into_owned()
}

/// Relies on m3u's `EntryReader::entries`, keeping the `Path` entries. It reads
/// line by line, trims whitespace at both ends, skips empty lines and lines
/// starting with `#`, and takes a line as a URL only where it parses as one
/// with a host, which a line starting with `/` never does.
#[verifier::external_body]
fn m3u_read_paths(text: &str) -> (r: Vec<String>)
    ensures
        texts_of(r@) == m3u_path_entries(text@),
        forall|ps: Seq<Seq<char>>|
            #[trigger] m3u_text_of(ps) == text@ && (forall|i: int| 0 <= i < ps.len() ==> is_plain_path(#[trigger] ps[i]))
                ==> texts_of(r@) == ps,
{
    let mut reader = m3u::Reader::new(text.as_bytes());
    let mut paths: Vec<String> = Vec::new();
    for entry in reader.entries() {
        match entry {
            Ok(m3u::Entry::Path(p)) => paths.push(p.to_string_lossy().into_owned()),
            Ok(m3u::Entry::Url(_)) => {},
            Err(_) => break,
        }
    }
    paths
}

/// The playlist file that lists `paths`, in order.
pub fn write_m3u(paths: &Vec<String>) -> (r: String)
    ensures
        r@ == m3u_text_of(texts_of(paths@)),
{
    let mut text = String::new();
    let mut i: usize = 0;
    while i < paths.len()
        invariant
            i <= paths@.len(),
            text@ == m3u_text_of(texts_of(paths@.subrange(0, i as int))),
        decreases paths@.len() - i,
    {
        let line = m3u_path_line(&paths[i]);
        text.append(line.as_str());
        proof {
            let next = texts_of(paths@.subrange(0, i + 1));
            assert(next.drop_last() =~= texts_of(paths@.subrange(0, i as int)));
            assert(next.last() == paths@[i as int]@);
        }
        i = i + 1;
    }
    assert(paths@.subrange(0, paths@.len() as int) =~= paths@);
    text
}

/// The path `p` taken relative to `cwd` unless it is absolute.
pub fn resolve_path(cwd: &str, p: &str) -> (r: String)
    ensures
        r@ == resolved(cwd@, p@),
{
    let plen = p.unicode_len();
    if plen > 0 && p.get_char(0) == '/' {
        return p.to_owned();
    }
    let clen = cwd.unicode_len();
    if clen == 0 {
        return p.to_owned();
    }
    let mut r = cwd.to_owned();
    if cwd.get_char(clen - 1) != '/' {
        r.append("/");
        proof {
            reveal_strlit("/");
        }
    }
    r.append(p);
    r
}

/// The paths that the playlist file `text` lists, each taken relative to `cwd`
/// unless it is absolute. A file that `write_m3u` wrote from absolute paths
/// reads back as those paths.
pub fn read_playlist_paths(cwd: &str, text: &str) -> (r: Vec<String>)
    ensures
        texts_of(r@) == m3u_path_entries(text@).map_values(|p: Seq<char>| resolved(cwd@, p)),
        forall|ps: Seq<Seq<char>>|
            #[trigger] m3u_text_of(ps) == text@ && (forall|i: int| 0 <= i < ps.len() ==> is_plain_path(#[trigger] ps[i]))
                ==> texts_of(r@) == ps,
{
    let entries = m3u_read_paths(text);
    let mut paths: Vec<String> = Vec::new();
    let mut i: usize = 0;
    while i < entries.len()
        invariant
            i <= entries@.len(),
            paths@.len() == i,
            forall|j: int| 0 <= j < i ==> (#[trigger] paths@[j])@ == resolved(cwd@, entries@[j]@),
        decreases entries@.len() - i,
    {
        let p = resolve_path(cwd, entries[i].as_str());
        paths.push(p);
        i = i + 1;
    }
    let ghost want = m3u_path_entries(text@).map_values(|p: Seq<char>| resolved(cwd@, p));
    assert(texts_of(paths@) =~= want);
    assert forall|ps: Seq<Seq<char>>|
        #[trigger] m3u_text_of(ps) == text@ && (forall|i: int| 0 <= i < ps.len() ==> is_plain_path(#[trigger] ps[i]))
            implies texts_of(paths@) == ps by {
        assert(texts_of(entries@) == ps);
        assert forall|j: int| 0 <= j < ps.len() implies texts_of(paths@)[j] == ps[j] by {
            assert(is_plain_path(ps[j]));
            assert(entries@[j]@ == ps[j]);
        }
        assert(texts_of(paths@) =~= ps);
    }
    paths
}

} // verus!
