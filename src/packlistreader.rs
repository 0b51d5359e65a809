//! The line-oriented playlist: record parsing, record lookup by ordinal, and
//! a cache that holds at most one decoded record.
use vstd::prelude::*;

verus! {

/// Whether `c` has the Unicode `White_Space` property.
pub open spec fn is_white_space(c: char) -> bool {
    let u = c as u32;
    (0x09 <= u <= 0x0d) || u == 0x20 || u == 0x85 || u == 0xa0 || u == 0x1680 || (0x2000 <= u
        <= 0x200a) || u == 0x2028 || u == 0x2029 || u == 0x202f || u == 0x205f || u == 0x3000
}

/// `s` without its leading white space.
pub open spec fn trimmed_start(s: Seq<char>) -> Seq<char>
    decreases s.len(),
{
    if s.len() > 0 && is_white_space(s[0]) {
        trimmed_start(s.drop_first())
    } else {
        s
    }
}

/// `s` without its trailing white space.
pub open spec fn trimmed_end(s: Seq<char>) -> Seq<char>
    decreases s.len(),
{
    if s.len() > 0 && is_white_space(s.last()) {
        trimmed_end(s.drop_last())
    } else {
        s
    }
}

/// `s` without its leading and trailing white space.
pub open spec fn trimmed(s: Seq<char>) -> Seq<char> {
    trimmed_end(trimmed_start(s))
}

/// Relies on `str::trim`, which removes leading and trailing characters with
/// the `White_Space` property, and `str::to_string`: the trimmed field as an
/// owned string.
#[verifier::external_body]
fn trim_field(s: &str) -> (r: String)
    ensures
        r@ == trimmed(s@),
{
    s.trim().to_string()
}

/// The comma-separated fields of a line, untrimmed. A line without a comma is
/// one field; an empty line is one empty field.
pub open spec fn split_fields(s: Seq<char>) -> Seq<Seq<char>>
    decreases s.len(),
{
    if s.len() == 0 {
        seq![Seq::<char>::empty()]
    } else {
        let init = split_fields(s.drop_last());
        if s.last() == ',' {
            init.push(Seq::<char>::empty())
        } else {
            init.update(init.len() - 1, init.last().push(s.last()))
        }
    }
}

proof fn lemma_split_nonempty(s: Seq<char>)
    ensures
        split_fields(s).len() >= 1,
    decreases s.len(),
{
    if s.len() > 0 {
        lemma_split_nonempty(s.drop_last());
    }
}

/// The abstract content of a record.
pub struct SongView {
    pub name: Seq<char>,
    pub source: Seq<char>,
    pub album: Option<Seq<char>>,
    pub author: Option<Seq<char>>,
    pub index: nat,
}

/// One playlist record.
#[derive(Debug, Clone)]
pub struct SongData {
    pub name: String,
    pub source: String,
    pub album: Option<String>,
    pub author: Option<String>,
    pub index: usize,
}

pub open spec fn opt_string_view(o: Option<String>) -> Option<Seq<char>> {
    match o {
        Some(s) => Some(s@),
        None => None,
    }
}

impl View for SongData {
    type V = SongView;

    open spec fn view(&self) -> SongView {
        SongView {
            name: self.name@,
            source: self.source@,
            album: opt_string_view(self.album),
            author: opt_string_view(self.author),
            index: self.index as nat,
        }
    }
}

pub open spec fn opt_song_view(o: Option<SongData>) -> Option<SongView> {
    match o {
        Some(d) => Some(d@),
        None => None,
    }
}

/// The record that `line` holds as record number `index`: name, source and
/// the optional album and author, each trimmed; nothing unless the line has
/// two to four fields.
pub open spec fn parsed(line: Seq<char>, index: nat) -> Option<SongView> {
    let f = split_fields(line);
    if 2 <= f.len() <= 4 {
        Some(
            SongView {
                name: trimmed(f[0]),
                source: trimmed(f[1]),
                album: if f.len() >= 3 {
                    Some(trimmed(f[2]))
                } else {
                    None
                },
                author: if f.len() == 4 {
                    Some(trimmed(f[3]))
                } else {
                    None
                },
                index,
            },
        )
    } else {
        None
    }
}

/// The character ranges of the fields of `line`, in order.
pub fn field_bounds(line: &str) -> (r: Vec<(usize, usize)>)
    ensures
        r@.len() == split_fields(line@).len(),
        forall|k: int|
            #![trigger r@[k]]
            0 <= k < r@.len() ==> {
                &&& r@[k].0 <= r@[k].1
                &&& r@[k].1 <= line@.len()
                &&& line@.subrange(r@[k].0 as int, r@[k].1 as int) == split_fields(line@)[k]
            },
{
    let n = line.unicode_len();
    let mut bounds: Vec<(usize, usize)> = Vec::new();
    let mut start: usize = 0;
    let mut i: usize = 0;
    proof {
        assert(line@.subrange(0, 0) =~= Seq::<char>::empty());
    }
    while i < n
        invariant
            n == line@.len(),
            start <= i <= n,
            bounds@.len() + 1 == split_fields(line@.subrange(0, i as int)).len(),
            forall|k: int|
                #![trigger bounds@[k]]
                0 <= k < bounds@.len() ==> {
                    &&& bounds@[k].0 <= bounds@[k].1
                    &&& bounds@[k].1 <= i
                    &&& line@.subrange(bounds@[k].0 as int, bounds@[k].1 as int) == split_fields(
                        line@.subrange(0, i as int),
                    )[k]
                },
            line@.subrange(start as int, i as int) == split_fields(
                line@.subrange(0, i as int),
            ).last(),
        decreases n - i,
    {
        let c = line.get_char(i);
        let ghost pre = line@.subrange(0, i as int);
        let ghost next = line@.subrange(0, i + 1);
        proof {
            assert(next.drop_last() =~= pre);
            assert(next.last() == c);
            lemma_split_nonempty(pre);
        }
        let ghost old_bounds = bounds@;
        if c == ',' {
            bounds.push((start, i));
            start = i + 1;
            proof {
                assert(line@.subrange(start as int, i + 1) =~= Seq::<char>::empty());
                assert(split_fields(next) == split_fields(pre).push(Seq::<char>::empty()));
            }
        } else {
            proof {
                assert(line@.subrange(start as int, i + 1) =~= line@.subrange(
                    start as int,
                    i as int,
                ).push(c));
                let sp = split_fields(pre);
                assert(split_fields(next) == sp.update(sp.len() - 1, sp.last().push(c)));
            }
        }
        proof {
            assert forall|k: int| 0 <= k < bounds@.len() implies {
                &&& bounds@[k].0 <= bounds@[k].1
                &&& bounds@[k].1 <= i + 1
                &&& line@.subrange(bounds@[k].0 as int, bounds@[k].1 as int) == split_fields(
                    next,
                )[k]
            } by {
                let sp = split_fields(pre);
                if k < old_bounds.len() {
                    assert(bounds@[k] == old_bounds[k]);
                    assert(split_fields(next)[k] == sp[k]);
                } else {
                    assert(c == ',');
                    assert(k == sp.len() - 1);
                    assert(split_fields(next)[k] == sp.last());
                }
            }
        }
        i = i + 1;
        assert(line@.subrange(0, i as int) == next);
    }
    proof {
        assert(line@.subrange(0, n as int) =~= line@);
    }
    let ghost old_bounds = bounds@;
    bounds.push((start, n));
    proof {
        assert(split_fields(line@.subrange(0, n as int)) == split_fields(line@));
        assert forall|k: int| 0 <= k < bounds@.len() implies {
            &&& bounds@[k].0 <= bounds@[k].1
            &&& bounds@[k].1 <= line@.len()
            &&& line@.subrange(bounds@[k].0 as int, bounds@[k].1 as int) == split_fields(line@)[k]
        } by {
            let sp = split_fields(line@.subrange(0, n as int));
            if k < old_bounds.len() {
                assert(bounds@[k] == old_bounds[k]);
            } else {
                assert(k == sp.len() - 1);
                assert(bounds@[k] == (start, n));
            }
        }
    }
    bounds
}

/// Reads `line` as record number `index`.
pub fn parse_record(line: &str, index: usize) -> (r: Option<SongData>)
    ensures
        opt_song_view(r) == parsed(line@, index as nat),
{
    let bounds = field_bounds(line);
    let ghost f = split_fields(line@);
    let count = bounds.len();
    if count < 2 || count > 4 {
        return None;
    }
    let name = trim_field(line.substring_char(bounds[0].0, bounds[0].1));
    let source = trim_field(line.substring_char(bounds[1].0, bounds[1].1));
    let album = if count >= 3 {
        Some(trim_field(line.substring_char(bounds[2].0, bounds[2].1)))
    } else {
        None
    };
    let author = if count == 4 {
        Some(trim_field(line.substring_char(bounds[3].0, bounds[3].1)))
    } else {
        None
    };
    let r = SongData { name, source, album, author, index };
    assert(r@ == parsed(line@, index as nat).unwrap());
    Some(r)
}

/// The views of a sequence of strings.
pub open spec fn line_views(lines: Seq<String>) -> Seq<Seq<char>> {
    lines.map_values(|s: String| s@)
}

/// The non-empty lines, in order: the records of the playlist.
pub open spec fn records(lines: Seq<Seq<char>>) -> Seq<Seq<char>>
    decreases lines.len(),
{
    if lines.len() == 0 {
        Seq::empty()
    } else if lines.last().len() == 0 {
        records(lines.drop_last())
    } else {
        records(lines.drop_last()).push(lines.last())
    }
}

/// The record at ordinal `index` of `lines`, parsed; nothing where `lines`
/// has no such record or it does not parse.
pub open spec fn record_at(lines: Seq<Seq<char>>, index: nat) -> Option<SongView> {
    let recs = records(lines);
    if index < recs.len() {
        parsed(recs[index as int], index)
    } else {
        None
    }
}

proof fn lemma_records_prefix(lines: Seq<Seq<char>>, j: int)
    requires
        0 <= j <= lines.len(),
    ensures
        records(lines.subrange(0, j)).len() <= records(lines).len(),
        forall|k: int|
            0 <= k < records(lines.subrange(0, j)).len() ==> #[trigger] records(lines)[k]
                == records(lines.subrange(0, j))[k],
    decreases lines.len(),
{
    if j == lines.len() {
        assert(lines.subrange(0, j) =~= lines);
    } else {
        assert(lines.drop_last().subrange(0, j) =~= lines.subrange(0, j));
        lemma_records_prefix(lines.drop_last(), j);
    }
}

/// The number of records among `lines`.
pub fn count_records(lines: &Vec<String>) -> (r: usize)
    ensures
        r == records(line_views(lines@)).len(),
{
    let ghost v = line_views(lines@);
    let mut count: usize = 0;
    let mut i: usize = 0;
    proof {
        assert(v.subrange(0, 0) =~= Seq::<Seq<char>>::empty());
    }
    while i < lines.len()
        invariant
            v == line_views(lines@),
            i <= lines.len(),
            count == records(v.subrange(0, i as int)).len(),
            count <= i,
        decreases lines.len() - i,
    {
        proof {
            assert(v.subrange(0, i + 1).drop_last() =~= v.subrange(0, i as int));
        }
        if !lines[i].as_str().is_empty() {
            count = count + 1;
        }
        i = i + 1;
    }
    proof {
        assert(v.subrange(0, i as int) =~= v);
    }
    count
}

/// Record number `index` of `lines`, counting non-empty lines only.
pub fn find_record(lines: &Vec<String>, index: usize) -> (r: Option<SongData>)
    ensures
        opt_song_view(r) == record_at(line_views(lines@), index as nat),
{
    let ghost v = line_views(lines@);
    let mut seen: usize = 0;
    let mut i: usize = 0;
    proof {
        assert(v.subrange(0, 0) =~= Seq::<Seq<char>>::empty());
    }
    while i < lines.len()
        invariant
            v == line_views(lines@),
            i <= lines.len(),
            seen == records(v.subrange(0, i as int)).len(),
            seen <= index,
        decreases lines.len() - i,
    {
        let line = lines[i].as_str();
        let ghost next = v.subrange(0, i + 1);
        proof {
            assert(next.drop_last() =~= v.subrange(0, i as int));
            assert(next.last() == line@);
        }
        if !line.is_empty() {
            if seen == index {
                proof {
                    lemma_records_prefix(v, i + 1);
                    assert(records(next)[index as int] == line@);
                }
                return parse_record(line, index);
            }
            seen = seen + 1;
        }
        i = i + 1;
    }
    proof {
        assert(v.subrange(0, i as int) =~= v);
    }
    None
}

/// A cache of at most one record of a playlist, with the playlist's record
/// count taken once when it was made.
pub struct PackCache {
    pub cache: Option<SongData>,
    pub length: usize,
}

impl PackCache {
    /// Whether record number `index` is the one held.
    pub open spec fn hit(&self, index: usize) -> bool {
        self.cache matches Some(d) && d.index == index
    }

    /// How a load of record `index` from `lines` leaves `prev`: unchanged on
    /// a hit; else holding that record, or nothing where there is none.
    pub open spec fn loaded(&self, prev: PackCache, index: usize, lines: Seq<Seq<char>>) -> bool {
        &&& self.length == prev.length
        &&& if prev.hit(index) {
            self.cache == prev.cache
        } else {
            opt_song_view(self.cache) == record_at(lines, index as nat)
        }
    }

    /// The count matches `lines`, and the record held, if any, is the one
    /// that `lines` has under its index.
    pub open spec fn agrees(&self, lines: Seq<Seq<char>>) -> bool {
        &&& self.length == records(lines).len()
        &&& self.cache matches Some(d) ==> record_at(lines, d.index as nat) == Some(d@)
    }

    /// An empty cache over `lines`, whose records it counts.
    pub fn new(lines: &Vec<String>) -> (r: Self)
        ensures
            r.cache is None,
            r.length == records(line_views(lines@)).len(),
            r.agrees(line_views(lines@)),
    {
        PackCache { cache: None, length: count_records(lines) }
    }

    /// Whether record `index` is held, so that a load of it needs no scan.
    pub fn is_cached(&self, index: usize) -> (r: bool)
        ensures
            r == self.hit(index),
    {
        match &self.cache {
            Some(d) => d.index == index,
            None => false,
        }
    }

    /// Loads record `index`: nothing happens where it is held already; else
    /// `lines` is scanned from the start and the cache holds that record, or
    /// is emptied where `lines` has none that parses.
    pub fn load(&mut self, index: usize, lines: &Vec<String>)
        ensures
            final(self).loaded(*old(self), index, line_views(lines@)),
            opt_song_view(final(self).cache) == held_after_load(
                opt_song_view(old(self).cache),
                index,
                line_views(lines@),
            ),
            old(self).agrees(line_views(lines@)) ==> final(self).agrees(line_views(lines@)),
    {
        if self.is_cached(index) {
            return;
        }
        self.cache = find_record(lines, index);
        proof {
            let v = line_views(lines@);
            if self.cache is Some {
                let d = self.cache.unwrap();
                assert(record_at(v, index as nat) == Some(d@));
                assert(d@.index == index);
            }
        }
    }

    /// The record held, if any.
    pub fn cache_ref(&self) -> (r: Option<&SongData>)
        ensures
            match r {
                Some(d) => self.cache == Some(*d),
                None => self.cache is None,
            },
    {
        self.cache.as_ref()
    }

    /// The record count taken when the cache was made.
    pub fn len(&self) -> (r: usize)
        ensures
            r == self.length,
    {
        self.length
    }
}

/// Whether `held` is record number `index`.
pub open spec fn hit_view(held: Option<SongView>, index: usize) -> bool {
    held matches Some(d) && d.index == index
}

/// The record held after a load of record `index` from `lines`: unchanged on a
/// hit; else the record at that ordinal, or nothing where there is none.
pub open spec fn held_after_load(held: Option<SongView>, index: usize, lines: Seq<Seq<char>>) -> Option<SongView> {
    if hit_view(held, index) {
        held
    } else {
        record_at(lines, index as nat)
    }
}

/// The record held, if any, is the one that `lines` has under its index.
pub open spec fn held_consistent(held: Option<SongView>, lines: Seq<Seq<char>>) -> bool {
    held matches Some(d) ==> record_at(lines, d.index) == Some(d)
}

/// Two loads of one index in a row: where the first leaves a record, the
/// second is a hit that changes nothing; either way both leave the same record.
pub proof fn lemma_load_twice(held: Option<SongView>, index: usize, lines: Seq<Seq<char>>)
    ensures
        held_after_load(held, index, lines) is Some ==> hit_view(
            held_after_load(held, index, lines),
            index,
        ),
        held_after_load(held_after_load(held, index, lines), index, lines) == held_after_load(
            held,
            index,
            lines,
        ),
{
}

/// A load keeps the record held consistent with `lines`.
pub proof fn lemma_load_keeps_consistent(held: Option<SongView>, index: usize, lines: Seq<Seq<char>>)
    requires
        held_consistent(held, lines),
    ensures
        held_consistent(held_after_load(held, index, lines), lines),
{
}

/// A load of an index at or beyond the record count leaves nothing held.
pub proof fn lemma_load_beyond_len(held: Option<SongView>, index: usize, lines: Seq<Seq<char>>)
    requires
        held_consistent(held, lines),
        index >= records(lines).len(),
    ensures
        held_after_load(held, index, lines) is None,
{
}

/// A source of playlist records that holds at most one of them at a time.
pub trait PackListReader {
    /// The lines of the playlist.
    spec fn lines_view(&self) -> Seq<Seq<char>>;

    /// The record held, if any.
    spec fn held(&self) -> Option<SongView>;

    /// The record count taken when the source was made.
    spec fn count(&self) -> nat;

    /// Loads record `index`; does nothing where it is held already, else holds
    /// that record, or nothing where there is none.
    fn load(&mut self, index: usize)
        ensures
            final(self).lines_view() == old(self).lines_view(),
            final(self).count() == old(self).count(),
            final(self).held() == held_after_load(old(self).held(), index, old(self).lines_view()),
    ;

    /// The record held, if any.
    fn cache_ref(&self) -> (r: Option<&SongData>)
        ensures
            match r {
                Some(d) => self.held() == Some(d@),
                None => self.held() is None,
            },
    ;

    /// The number of records.
    fn len(&self) -> (r: usize)
        ensures
            r == self.count(),
    ;

    /// Loads record `index` and returns it, if there is one.
    fn get(&mut self, index: usize) -> (r: Option<&SongData>)
        ensures
            final(self).lines_view() == old(self).lines_view(),
            final(self).count() == old(self).count(),
            final(self).held() == held_after_load(old(self).held(), index, old(self).lines_view()),
            match r {
                Some(d) => final(self).held() == Some(d@),
                None => final(self).held() is None,
            },
    {
        self.load(index);
        self.cache_ref()
    }
}

/// A playlist held in memory as its lines, read through a [`PackCache`].
pub struct MemPackList {
    pub lines: Vec<String>,
    pub cache: PackCache,
}

impl MemPackList {
    /// A playlist of `lines`, with nothing loaded.
    pub fn new(lines: Vec<String>) -> (r: Self)
        ensures
            r.lines@ == lines@,
            r.held() is None,
            r.count() == records(line_views(lines@)).len(),
            r.lines_view() == line_views(lines@),
    {
        let cache = PackCache::new(&lines);
        MemPackList { lines, cache }
    }
}

impl PackListReader for MemPackList {
    open spec fn lines_view(&self) -> Seq<Seq<char>> {
        line_views(self.lines@)
    }

    open spec fn held(&self) -> Option<SongView> {
        opt_song_view(self.cache.cache)
    }

    open spec fn count(&self) -> nat {
        self.cache.length as nat
    }

    fn load(&mut self, index: usize) {
        self.cache.load(index, &self.lines);
    }

    fn cache_ref(&self) -> (r: Option<&SongData>) {
        self.cache.cache_ref()
    }

    fn len(&self) -> (r: usize) {
        self.cache.len()
    }
}

} // verus!
