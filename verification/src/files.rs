use vstd::prelude::*;

verus! {

broadcast use vstd::seq_lib::group_seq_properties;

/// One entry of a listed folder: its path, its file name as bytes (in the
/// platform's encoding of file names) and whether it is a regular file.
pub struct DirEntryInfo<P> {
    pub path: P,
    pub name: Vec<u8>,
    pub is_file: bool,
}

pub open spec fn dot() -> u8 {
    46u8
}

/// The index of the last `.` in `name`, or -1 when it holds none.
pub open spec fn last_dot(name: Seq<u8>) -> int
    decreases name.len(),
{
    if name.len() == 0 {
        -1
    } else if name.last() == dot() {
        name.len() - 1
    } else {
        last_dot(name.drop_last())
    }
}

/// The extension of a file name, as `Path::extension` documents it: none for
/// `..`, none without an embedded `.`, none when the only `.` starts the
/// name, otherwise what follows the final `.`.
pub open spec fn file_extension(name: Seq<u8>) -> Option<Seq<u8>> {
    if name == seq![dot(), dot()] {
        None
    } else if last_dot(name) <= 0 {
        None
    } else {
        Some(name.subrange(last_dot(name) + 1, name.len() as int))
    }
}

pub open spec fn ascii_lower_byte(b: u8) -> u8 {
    if 65 <= b <= 90 { (b + 32) as u8 } else { b }
}

/// The bytes with ASCII capitals turned into small letters.
pub open spec fn ascii_lower(s: Seq<u8>) -> Seq<u8> {
    Seq::new(s.len(), |i: int| ascii_lower_byte(s[i]))
}

/// The extensions, in small letters, of the files a folder scan picks up:
/// flac, mp3, wav, ogg and m4a.
pub open spec fn audio_extensions() -> Seq<Seq<u8>> {
    seq![
        seq![102u8, 108u8, 97u8, 99u8],
        seq![109u8, 112u8, 51u8],
        seq![119u8, 97u8, 118u8],
        seq![111u8, 103u8, 103u8],
        seq![109u8, 52u8, 97u8],
    ]
}

/// A file name whose extension, compared without regard to ASCII case, is one
/// of the audio extensions.
pub open spec fn is_audio_name(name: Seq<u8>) -> bool {
    match file_extension(name) {
        Some(ext) => audio_extensions().contains(ascii_lower(ext)),
        None => false,
    }
}

pub open spec fn is_audio_entry<P>(e: DirEntryInfo<P>) -> bool {
    e.is_file && is_audio_name(e.name@)
}

/// Byte-wise lexicographic order, the order of file names within one folder.
pub open spec fn bytes_le(a: Seq<u8>, b: Seq<u8>) -> bool
    decreases a.len(),
{
    if a.len() == 0 {
        true
    } else if b.len() == 0 {
        false
    } else if a[0] != b[0] {
        a[0] < b[0]
    } else {
        bytes_le(a.drop_first(), b.drop_first())
    }
}

pub open spec fn sorted_by_name<P>(s: Seq<DirEntryInfo<P>>) -> bool {
    forall|i: int, j: int| 0 <= i < j < s.len() ==> bytes_le(#[trigger] s[i].name@, #[trigger] s[j].name@)
}

pub proof fn lemma_bytes_le_total(a: Seq<u8>, b: Seq<u8>)
    ensures
        bytes_le(a, b) || bytes_le(b, a),
    decreases a.len(),
{
    if a.len() > 0 && b.len() > 0 && a[0] == b[0] {
        lemma_bytes_le_total(a.drop_first(), b.drop_first());
    }
}

pub proof fn lemma_bytes_le_transitive(a: Seq<u8>, b: Seq<u8>, c: Seq<u8>)
    requires
        bytes_le(a, b),
        bytes_le(b, c),
    ensures
        bytes_le(a, c),
    decreases a.len(),
{
    if a.len() > 0 && b.len() > 0 && c.len() > 0 && a[0] == b[0] && b[0] == c[0] {
        lemma_bytes_le_transitive(a.drop_first(), b.drop_first(), c.drop_first());
    }
}

proof fn lemma_last_dot_prefix(name: Seq<u8>, i: int)
    requires
        0 < i <= name.len(),
    ensures
        name.subrange(0, i).last() == dot() ==> last_dot(name.subrange(0, i)) == i - 1,
        name.subrange(0, i).last() != dot() ==> last_dot(name.subrange(0, i)) == last_dot(name.subrange(0, i - 1)),
{
    assert(name.subrange(0, i).drop_last() =~= name.subrange(0, i - 1));
}

proof fn lemma_last_dot_bounds(name: Seq<u8>)
    ensures
        -1 <= last_dot(name) < name.len(),
        last_dot(name) >= 0 ==> name[last_dot(name)] == dot(),
    decreases name.len(),
{
    if name.len() > 0 && name.last() != dot() {
        lemma_last_dot_bounds(name.drop_last());
    }
}

fn find_last_dot(name: &[u8]) -> (r: Option<usize>)
    ensures
        match r {
            Some(k) => k as int == last_dot(name@),
            None => last_dot(name@) == -1,
        },
{
    let mut i = name.len();
    proof {
        assert(name@.subrange(0, i as int) =~= name@);
    }
    while i > 0
        invariant
            i <= name@.len(),
            last_dot(name@) == last_dot(name@.subrange(0, i as int)),
        decreases i,
    {
        proof {
            lemma_last_dot_prefix(name@, i as int);
        }
        if name[i - 1] == 46u8 {
            return Some(i - 1);
        }
        i = i - 1;
    }
    None
}

fn lowered_equals(ext: &[u8], start: usize, word: &[u8]) -> (r: bool)
    requires
        start <= ext@.len(),
    ensures
        r == (ascii_lower(ext@.subrange(start as int, ext@.len() as int)) == word@),
{
    let ghost e = ext@.subrange(start as int, ext@.len() as int);
    if ext.len() - start != word.len() {
        assert(ascii_lower(e).len() != word@.len());
        return false;
    }
    let mut i: usize = 0;
    while i < word.len()
        invariant
            start <= ext@.len(),
            e == ext@.subrange(start as int, ext@.len() as int),
            ext@.len() - start == word@.len(),
            i <= word@.len(),
            forall|j: int| 0 <= j < i ==> ascii_lower_byte(e[j]) == word@[j],
        decreases word@.len() - i,
    {
        assert(start + i < ext.len());
        let b = ext[start + i];
        let lower = if 65 <= b && b <= 90 { b + 32 } else { b };
        if lower != word[i] {
            assert(ascii_lower(e)[i as int] != word@[i as int]);
            return false;
        }
        i = i + 1;
    }
    assert(ascii_lower(e) =~= word@);
    true
}

/// Whether a file name has one of the audio extensions (flac, mp3, wav, ogg,
/// m4a), in any ASCII case.
pub fn is_audio_file_name(name: &[u8]) -> (r: bool)
    ensures
        r == is_audio_name(name@),
{
    proof {
        lemma_last_dot_bounds(name@);
    }
    if name.len() == 2 && name[0] == 46u8 && name[1] == 46u8 {
        assert(name@ =~= seq![dot(), dot()]);
        return false;
    }
    assert(name@ != seq![dot(), dot()]) by {
        if name@ == seq![dot(), dot()] {
            assert(name@.len() == 2 && name@[0] == dot() && name@[1] == dot());
        }
    }
    let k = match find_last_dot(name) {
        Some(k) => k,
        None => return false,
    };
    if k == 0 {
        return false;
    }
    let start = k + 1;
    let ghost ext = name@.subrange(start as int, name@.len() as int);
    assert(file_extension(name@) == Some(ext));
    let flac: [u8; 4] = [102u8, 108u8, 97u8, 99u8];
    let mp3: [u8; 3] = [109u8, 112u8, 51u8];
    let wav: [u8; 3] = [119u8, 97u8, 118u8];
    let ogg: [u8; 3] = [111u8, 103u8, 103u8];
    let m4a: [u8; 3] = [109u8, 52u8, 97u8];
    assert(flac@ =~= audio_extensions()[0]);
    assert(mp3@ =~= audio_extensions()[1]);
    assert(wav@ =~= audio_extensions()[2]);
    assert(ogg@ =~= audio_extensions()[3]);
    assert(m4a@ =~= audio_extensions()[4]);
    let r = lowered_equals(name, start, flac.as_slice()) || lowered_equals(name, start, mp3.as_slice())
        || lowered_equals(name, start, wav.as_slice()) || lowered_equals(name, start, ogg.as_slice())
        || lowered_equals(name, start, m4a.as_slice());
    proof {
        let lowered = ascii_lower(ext);
        if audio_extensions().contains(lowered) {
            let w = choose|w: int| 0 <= w < 5 && audio_extensions()[w] == lowered;
            assert(r);
        }
        if r {
            assert(audio_extensions().contains(lowered));
        }
    }
    r
}

/// The entries of a listing that a folder scan keeps, in listing order.
pub open spec fn audio_entries<P>(s: Seq<DirEntryInfo<P>>) -> Seq<DirEntryInfo<P>> {
    s.filter(|e: DirEntryInfo<P>| is_audio_entry(e))
}

/// Compares two file names byte by byte.
pub fn name_le(a: &[u8], b: &[u8]) -> (r: bool)
    ensures
        r == bytes_le(a@, b@),
{
    let mut i: usize = 0;
    proof {
        assert(a@.skip(0) =~= a@);
        assert(b@.skip(0) =~= b@);
    }
    while i < a.len() && i < b.len()
        invariant
            i <= a@.len(),
            i <= b@.len(),
            bytes_le(a@, b@) == bytes_le(a@.skip(i as int), b@.skip(i as int)),
        decreases a@.len() - i,
    {
        if a[i] != b[i] {
            return a[i] < b[i];
        }
        proof {
            assert(a@.skip(i as int).drop_first() =~= a@.skip(i + 1));
            assert(b@.skip(i as int).drop_first() =~= b@.skip(i + 1));
        }
        i = i + 1;
    }
    i == a.len()
}

/// The first index at which `name` can be inserted to keep `sorted` in order
/// behind every entry whose name is not greater.
fn insertion_point<P>(sorted: &Vec<DirEntryInfo<P>>, name: &[u8]) -> (pos: usize)
    ensures
        pos <= sorted@.len(),
        forall|i: int| 0 <= i < pos ==> bytes_le(#[trigger] sorted@[i].name@, name@),
        pos < sorted@.len() ==> !bytes_le(sorted@[pos as int].name@, name@),
{
    let mut pos: usize = 0;
    while pos < sorted.len()
        invariant
            pos <= sorted@.len(),
            forall|i: int| 0 <= i < pos ==> bytes_le(#[trigger] sorted@[i].name@, name@),
        decreases sorted@.len() - pos,
    {
        if !name_le(sorted[pos].name.as_slice(), name) {
            return pos;
        }
        pos = pos + 1;
    }
    pos
}

proof fn lemma_insert_keeps_sorted<P>(s: Seq<DirEntryInfo<P>>, pos: int, e: DirEntryInfo<P>)
    requires
        sorted_by_name(s),
        0 <= pos <= s.len(),
        forall|i: int| 0 <= i < pos ==> bytes_le(#[trigger] s[i].name@, e.name@),
        pos < s.len() ==> !bytes_le(s[pos].name@, e.name@),
    ensures
        sorted_by_name(s.insert(pos, e)),
        s.insert(pos, e).to_multiset() == s.to_multiset().insert(e),
{
    let t = s.insert(pos, e);
    s.insert_ensures(pos, e);
    assert forall|i: int, j: int| 0 <= i < j < t.len() implies bytes_le(#[trigger] t[i].name@, #[trigger] t[j].name@) by {
        if j < pos {
            assert(t[i] == s[i] && t[j] == s[j]);
        } else if j == pos {
            assert(t[i] == s[i]);
        } else if i < pos {
            assert(t[i] == s[i] && t[j] == s[j - 1]);
            lemma_bytes_le_total(s[pos].name@, e.name@);
            assert(bytes_le(e.name@, s[pos].name@));
            if j - 1 > pos {
                assert(bytes_le(s[pos].name@, s[j - 1].name@));
                lemma_bytes_le_transitive(e.name@, s[pos].name@, s[j - 1].name@);
            }
            lemma_bytes_le_transitive(s[i].name@, e.name@, s[j - 1].name@);
        } else if i == pos {
            assert(t[j] == s[j - 1]);
            lemma_bytes_le_total(s[pos].name@, e.name@);
            if j - 1 > pos {
                assert(bytes_le(s[pos].name@, s[j - 1].name@));
                lemma_bytes_le_transitive(e.name@, s[pos].name@, s[j - 1].name@);
            }
        } else {
            assert(t[i] == s[i - 1] && t[j] == s[j - 1]);
        }
    }
    lemma_insert_to_multiset(s, pos, e);
}

/// The audio files of a folder listing (regular files with an audio
/// extension), sorted by file name.
pub fn audio_files<P>(entries: Vec<DirEntryInfo<P>>) -> (r: Vec<DirEntryInfo<P>>)
    ensures
        sorted_by_name(r@),
        r@.to_multiset() == audio_entries(entries@).to_multiset(),
{
    let ghost original = entries@;
    let mut rest = entries;
    let mut result: Vec<DirEntryInfo<P>> = Vec::new();
    let ghost mut k: int = 0;
    proof {
        assert(original.subrange(0, 0) =~= Seq::<DirEntryInfo<P>>::empty());
        assert(audio_entries(Seq::<DirEntryInfo<P>>::empty()) =~= Seq::<DirEntryInfo<P>>::empty());
        assert(original.subrange(0, 0).to_multiset() =~= result@.to_multiset());
        assert(rest@ =~= original.subrange(0, original.len() as int));
    }
    while rest.len() > 0
        invariant
            0 <= k <= original.len(),
            rest@ == original.subrange(k, original.len() as int),
            sorted_by_name(result@),
            result@.to_multiset() == audio_entries(original.subrange(0, k)).to_multiset(),
        decreases rest@.len(),
    {
        let ghost prefix = original.subrange(0, k);
        let e = rest.remove(0);
        proof {
            assert(e == original[k]);
            assert(original.subrange(0, k + 1) =~= prefix.push(e));
            prefix.lemma_filter_push(e, |e: DirEntryInfo<P>| is_audio_entry(e));
            assert(rest@ =~= original.subrange(k + 1, original.len() as int));
        }
        if e.is_file && is_audio_file_name(e.name.as_slice()) {
            let pos = insertion_point(&result, e.name.as_slice());
            proof {
                lemma_insert_keeps_sorted(result@, pos as int, e);
                audio_entries(prefix).to_multiset_ensures();
            }
            result.insert(pos, e);
        }
        proof {
            k = k + 1;
        }
    }
    proof {
        assert(original.subrange(0, k) =~= original);
    }
    result
}

/// The index of the first file whose name is `name`.
pub fn position_by_name<P>(files: &Vec<DirEntryInfo<P>>, name: &[u8]) -> (r: Option<usize>)
    ensures
        match r {
            Some(i) => i < files@.len() && files@[i as int].name@ == name@
                && forall|j: int| 0 <= j < i ==> #[trigger] files@[j].name@ != name@,
            None => forall|j: int| 0 <= j < files@.len() ==> #[trigger] files@[j].name@ != name@,
        },
{
    let mut i: usize = 0;
    while i < files.len()
        invariant
            i <= files@.len(),
            forall|j: int| 0 <= j < i ==> #[trigger] files@[j].name@ != name@,
        decreases files@.len() - i,
    {
        if name_le(files[i].name.as_slice(), name) && name_le(name, files[i].name.as_slice()) {
            proof {
                lemma_bytes_le_antisymmetric(files@[i as int].name@, name@);
            }
            return Some(i);
        }
        proof {
            if files@[i as int].name@ == name@ {
                lemma_bytes_le_total(name@, name@);
            }
        }
        i = i + 1;
    }
    None
}

pub proof fn lemma_bytes_le_antisymmetric(a: Seq<u8>, b: Seq<u8>)
    requires
        bytes_le(a, b),
        bytes_le(b, a),
    ensures
        a == b,
    decreases a.len(),
{
    if a.len() > 0 && b.len() > 0 {
        lemma_bytes_le_antisymmetric(a.drop_first(), b.drop_first());
        assert(a =~= seq![a[0]] + a.drop_first());
        assert(b =~= seq![b[0]] + b.drop_first());
    } else {
        assert(a =~= b);
    }
}

/// The paths of the files, in order.
pub fn paths_of<P>(files: Vec<DirEntryInfo<P>>) -> (r: Vec<P>)
    ensures
        r@ == files@.map_values(|e: DirEntryInfo<P>| e.path),
{
    let ghost original = files@;
    let mut rest = files;
    let mut paths: Vec<P> = Vec::new();
    let ghost mut k: int = 0;
    proof {
        assert(rest@ =~= original.subrange(0, original.len() as int));
    }
    while rest.len() > 0
        invariant
            0 <= k <= original.len(),
            rest@ == original.subrange(k, original.len() as int),
            paths@ == original.subrange(0, k).map_values(|e: DirEntryInfo<P>| e.path),
        decreases rest@.len(),
    {
        let e = rest.remove(0);
        paths.push(e.path);
        proof {
            assert(rest@ =~= original.subrange(k + 1, original.len() as int));
            assert(paths@ =~= original.subrange(0, k + 1).map_values(|e: DirEntryInfo<P>| e.path));
            k = k + 1;
        }
    }
    proof {
        assert(original.subrange(0, k) =~= original);
    }
    paths
}

/// `files` is what a folder scan makes of the listing `entries`: its audio
/// files, sorted by name.
pub open spec fn is_scan_of<P>(files: Seq<DirEntryInfo<P>>, entries: Seq<DirEntryInfo<P>>) -> bool {
    sorted_by_name(files) && files.to_multiset() == audio_entries(entries).to_multiset()
}

pub open spec fn paths_in<P>(files: Seq<DirEntryInfo<P>>) -> Seq<P> {
    files.map_values(|e: DirEntryInfo<P>| e.path)
}

/// `index` is where the first file named `name` stands in `files`, if any.
pub open spec fn is_position_of_name<P>(files: Seq<DirEntryInfo<P>>, name: Option<Seq<u8>>, index: Option<usize>) -> bool {
    match index {
        Some(i) => name matches Some(n) && i < files.len() && files[i as int].name@ == n
            && forall|j: int| 0 <= j < i ==> #[trigger] files[j].name@ != n,
        None => name matches Some(n) ==> forall|j: int| 0 <= j < files.len() ==> #[trigger] files[j].name@ != n,
    }
}

/// The paths of the audio files of a folder listing, sorted by name.
pub fn folder_files<P>(entries: Vec<DirEntryInfo<P>>) -> (r: Vec<P>)
    ensures
        exists|files: Seq<DirEntryInfo<P>>| is_scan_of(files, entries@) && r@ == paths_in(files),
{
    let ghost listing = entries@;
    let files = audio_files(entries);
    let ghost sorted = files@;
    let r = paths_of(files);
    assert(is_scan_of(sorted, listing) && r@ == paths_in(sorted));
    r
}

/// The playlist for a file picked in its folder: the folder's audio files
/// sorted by name, and the position of the file named `name` among them.
pub fn folder_playlist<P>(entries: Vec<DirEntryInfo<P>>, name: Option<&[u8]>) -> (r: (Vec<P>, Option<usize>))
    ensures
        exists|files: Seq<DirEntryInfo<P>>|
            is_scan_of(files, entries@) && r.0@ == paths_in(files)
                && is_position_of_name(files, match name { Some(n) => Some(n@), None => None }, r.1),
        r.1 matches Some(i) ==> i < r.0@.len(),
{
    let ghost listing = entries@;
    let files = audio_files(entries);
    let index = match name {
        Some(n) => position_by_name(&files, n),
        None => None,
    };
    let ghost sorted = files@;
    let paths = paths_of(files);
    assert(is_scan_of(sorted, listing) && paths@ == paths_in(sorted)
        && is_position_of_name(sorted, match name { Some(n) => Some(n@), None => None }, index));
    (paths, index)
}

pub proof fn lemma_bytes_le_reflexive(a: Seq<u8>)
    ensures
        bytes_le(a, a),
    decreases a.len(),
{
    if a.len() > 0 {
        lemma_bytes_le_reflexive(a.drop_first());
    }
}

/// Byte-wise order of names is a total order.
pub proof fn lemma_bytes_le_total_ordering()
    ensures
        vstd::relations::total_ordering(|a: Seq<u8>, b: Seq<u8>| bytes_le(a, b)),
{
    let leq = |a: Seq<u8>, b: Seq<u8>| bytes_le(a, b);
    assert forall|a: Seq<u8>| #[trigger] leq(a, a) by {
        lemma_bytes_le_reflexive(a);
    }
    assert forall|a: Seq<u8>, b: Seq<u8>| #[trigger] leq(a, b) && #[trigger] leq(b, a) implies a == b by {
        lemma_bytes_le_antisymmetric(a, b);
    }
    assert forall|a: Seq<u8>, b: Seq<u8>, c: Seq<u8>| #[trigger] leq(a, b) && #[trigger] leq(b, c) implies leq(a, c) by {
        lemma_bytes_le_transitive(a, b, c);
    }
    assert forall|a: Seq<u8>, b: Seq<u8>| #[trigger] leq(a, b) || #[trigger] leq(b, a) by {
        lemma_bytes_le_total(a, b);
    }
}

proof fn lemma_insert_to_multiset<A>(s: Seq<A>, pos: int, e: A)
    requires
        0 <= pos <= s.len(),
    ensures
        s.insert(pos, e).to_multiset() == s.to_multiset().insert(e),
{
    let front = s.subrange(0, pos);
    let back = s.subrange(pos, s.len() as int);
    assert(s.insert(pos, e) =~= front.push(e) + back);
    assert(s =~= front + back);
    vstd::seq_lib::lemma_multiset_commutative(front.push(e), back);
    vstd::seq_lib::lemma_multiset_commutative(front, back);
    front.to_multiset_ensures();
    assert(s.insert(pos, e).to_multiset() =~= s.to_multiset().insert(e));
}

/// Sequences with the same elements keep the same elements under a map.
proof fn lemma_map_keeps_same_elements<A, B>(s: Seq<A>, t: Seq<A>, f: spec_fn(A) -> B)
    requires
        s.to_multiset() == t.to_multiset(),
    ensures
        s.map_values(f).to_multiset() == t.map_values(f).to_multiset(),
    decreases s.len(),
{
    broadcast use vstd::multiset::group_multiset_axioms;
    s.to_multiset_ensures();
    t.to_multiset_ensures();
    if s.len() == 0 {
        assert(t.len() == 0);
        assert(s.map_values(f) =~= Seq::<B>::empty());
        assert(t.map_values(f) =~= Seq::<B>::empty());
    } else {
        let x = s.last();
        let rest = s.drop_last();
        assert(s =~= rest.push(x));
        rest.to_multiset_ensures();
        assert(t.to_multiset().count(x) > 0);
        assert(t.contains(x));
        let k = choose|k: int| 0 <= k < t.len() && t[k] == x;
        let t_rest = t.remove(k);
        assert(t_rest.to_multiset() =~= t.to_multiset().remove(x));
        assert(rest.to_multiset() =~= s.to_multiset().remove(x));
        lemma_map_keeps_same_elements(rest, t_rest, f);
        assert(s.map_values(f) =~= rest.map_values(f).push(f(x)));
        rest.map_values(f).to_multiset_ensures();
        assert(t.map_values(f) =~= t_rest.map_values(f).insert(k, f(x)));
        lemma_insert_to_multiset(t_rest.map_values(f), k, f(x));
    }
}

proof fn lemma_filter_count<A>(s: Seq<A>, pred: spec_fn(A) -> bool, a: A)
    ensures
        s.filter(pred).to_multiset().count(a) == if pred(a) { s.to_multiset().count(a) } else { 0 },
    decreases s.len(),
{
    broadcast use vstd::multiset::group_multiset_axioms;
    if s.len() == 0 {
        assert(s.filter(pred) =~= Seq::<A>::empty());
        s.to_multiset_ensures();
        s.filter(pred).to_multiset_ensures();
    } else {
        let x = s.last();
        let rest = s.drop_last();
        assert(s =~= rest.push(x));
        lemma_filter_count(rest, pred, a);
        rest.lemma_filter_push(x, pred);
        rest.to_multiset_ensures();
        rest.filter(pred).to_multiset_ensures();
    }
}

/// Listings with the same entries keep the same audio entries.
proof fn lemma_audio_entries_same_elements<P>(e1: Seq<DirEntryInfo<P>>, e2: Seq<DirEntryInfo<P>>)
    requires
        e1.to_multiset() == e2.to_multiset(),
    ensures
        audio_entries(e1).to_multiset() == audio_entries(e2).to_multiset(),
{
    let pred = |e: DirEntryInfo<P>| is_audio_entry(e);
    assert forall|a: DirEntryInfo<P>| audio_entries(e1).to_multiset().count(a) == audio_entries(e2).to_multiset().count(a) by {
        lemma_filter_count(e1, pred, a);
        lemma_filter_count(e2, pred, a);
    }
    assert(audio_entries(e1).to_multiset() =~= audio_entries(e2).to_multiset());
}

pub open spec fn names_in<P>(files: Seq<DirEntryInfo<P>>) -> Seq<Seq<u8>> {
    files.map_values(|e: DirEntryInfo<P>| e.name@)
}

/// The order of a scanned playlist does not depend on the order in which
/// the folder was listed: two listings with the same entries give the same
/// file names in the same order.
pub proof fn law_scan_ignores_listing_order<P>(
    e1: Seq<DirEntryInfo<P>>,
    e2: Seq<DirEntryInfo<P>>,
    f1: Seq<DirEntryInfo<P>>,
    f2: Seq<DirEntryInfo<P>>,
)
    requires
        e1.to_multiset() == e2.to_multiset(),
        is_scan_of(f1, e1),
        is_scan_of(f2, e2),
    ensures
        names_in(f1) == names_in(f2),
{
    lemma_audio_entries_same_elements(e1, e2);
    let name = |e: DirEntryInfo<P>| e.name@;
    lemma_map_keeps_same_elements(f1, f2, name);
    let leq = |a: Seq<u8>, b: Seq<u8>| bytes_le(a, b);
    lemma_bytes_le_total_ordering();
    let n1 = names_in(f1);
    let n2 = names_in(f2);
    assert(vstd::relations::sorted_by(n1, leq)) by {
        assert forall|i: int, j: int| 0 <= i < j < n1.len() implies #[trigger] leq(n1[i], n1[j]) by {
            assert(bytes_le(f1[i].name@, f1[j].name@));
        }
    }
    assert(vstd::relations::sorted_by(n2, leq)) by {
        assert forall|i: int, j: int| 0 <= i < j < n2.len() implies #[trigger] leq(n2[i], n2[j]) by {
            assert(bytes_le(f2[i].name@, f2[j].name@));
        }
    }
    vstd::seq_lib::lemma_sorted_unique(n1, n2, leq);
}

/// A file name is an audio name exactly when its extension, in small
/// letters, is `flac`, `mp3`, `wav`, `ogg` or `m4a`: any other extension
/// (`png`, `jpg`, `txt`, ...) and a name without one never count.
pub proof fn law_audio_names_are_the_five_extensions(name: Seq<u8>)
    ensures
        is_audio_name(name) <==> (file_extension(name) matches Some(ext) && {
            let e = ascii_lower(ext);
            ||| e == seq![102u8, 108u8, 97u8, 99u8]
            ||| e == seq![109u8, 112u8, 51u8]
            ||| e == seq![119u8, 97u8, 118u8]
            ||| e == seq![111u8, 103u8, 103u8]
            ||| e == seq![109u8, 52u8, 97u8]
        }),
{
    if let Some(ext) = file_extension(name) {
        let e = ascii_lower(ext);
        let a = audio_extensions();
        if a.contains(e) {
            let w = choose|w: int| 0 <= w < a.len() && a[w] == e;
            assert(0 <= w < 5);
        }
        if e == seq![102u8, 108u8, 97u8, 99u8] {
            assert(a[0] == e);
        } else if e == seq![109u8, 112u8, 51u8] {
            assert(a[1] == e);
        } else if e == seq![119u8, 97u8, 118u8] {
            assert(a[2] == e);
        } else if e == seq![111u8, 103u8, 103u8] {
            assert(a[3] == e);
        } else if e == seq![109u8, 52u8, 97u8] {
            assert(a[4] == e);
        }
    }
}

/// File names sort byte by byte: at the first byte where two names differ
/// the one with the smaller byte comes first, and a name comes before every
/// longer name it begins.
pub proof fn law_names_sort_bytewise(a: Seq<u8>, b: Seq<u8>, k: int)
    requires
        0 <= k <= a.len(),
        k <= b.len(),
        a.subrange(0, k) == b.subrange(0, k),
    ensures
        k == a.len() ==> bytes_le(a, b),
        k < a.len() && k < b.len() && a[k] < b[k] ==> bytes_le(a, b) && !bytes_le(b, a),
    decreases k,
{
    if k > 0 {
        assert(a[0] == a.subrange(0, k)[0]);
        assert(b[0] == b.subrange(0, k)[0]);
        assert(a.drop_first().subrange(0, k - 1) =~= b.drop_first().subrange(0, k - 1)) by {
            assert forall|j: int| 0 <= j < k - 1 implies a.drop_first()[j] == b.drop_first()[j] by {
                assert(a.subrange(0, k)[j + 1] == a[j + 1]);
                assert(b.subrange(0, k)[j + 1] == b[j + 1]);
                assert(a.subrange(0, k)[j + 1] == b.subrange(0, k)[j + 1]);
            }
        }
        law_names_sort_bytewise(a.drop_first(), b.drop_first(), k - 1);
    }
}

} // verus!
