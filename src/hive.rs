//! Registry hive navigation.
//!
//! A hive is held as a table of key cells. Each cell names its subkeys by
//! cell index; those indices come from the file and are not trusted, so every
//! one is checked when it is followed. A path is a backslash-separated list of
//! key names, matched without regard to ASCII case; empty components (leading,
//! trailing or doubled backslashes) are skipped.

use vstd::prelude::*;
use vstd::string::*;

use crate::value::Value;

verus! {

/// A structural defect met while navigating a hive.
#[derive(Clone, Copy, Debug, PartialEq, Eq, Structural)]
pub enum FormatError {
    /// A key refers to a cell index past the end of the hive.
    CellOutOfRange { cell: usize },
    /// A list of subkeys or values could not be read from the file.
    Unreadable,
}

/// One key of a hive: its name, last-write time (FILETIME ticks), its
/// subkey list and its value list. A list is `None` where the key has none,
/// and `Some(Err(..))` where it could not be resolved.
pub struct KeyCell {
    pub name: String,
    pub timestamp: u64,
    pub subkeys: Option<Result<Vec<usize>, FormatError>>,
    pub values: Option<Result<Vec<Value>, FormatError>>,
}

/// A registry hive: its key cells and the index of the root cell.
pub struct Hive {
    pub cells: Vec<KeyCell>,
    pub root: usize,
}

/// A key of a hive, by the index of its cell.
#[derive(Clone, Copy, Debug, PartialEq, Eq, Structural)]
pub struct KeyNode {
    pub cell: usize,
}

/// The code of a character with ASCII lower case folded to upper case.
pub open spec fn fold_code(c: char) -> u32 {
    if 97 <= c as u32 && c as u32 <= 122 {
        (c as u32 - 32) as u32
    } else {
        c as u32
    }
}

/// Two key or value names are equal up to ASCII case.
pub open spec fn names_match(a: Seq<char>, b: Seq<char>) -> bool {
    &&& a.len() == b.len()
    &&& forall|i: int| 0 <= i < a.len() ==> fold_code(#[trigger] a[i]) == fold_code(b[i])
}

/// The components of a path read so far: the completed non-empty ones, and
/// the one being read.
pub open spec fn split_state(p: Seq<char>) -> (Seq<Seq<char>>, Seq<char>)
    decreases p.len(),
{
    if p.len() == 0 {
        (Seq::empty(), Seq::empty())
    } else {
        let (done, cur) = split_state(p.drop_last());
        if p.last() == '\\' {
            if cur.len() > 0 {
                (done.push(cur), Seq::empty())
            } else {
                (done, Seq::empty())
            }
        } else {
            (done, cur.push(p.last()))
        }
    }
}

/// The non-empty backslash-separated components of a path, in order.
pub open spec fn path_components(p: Seq<char>) -> Seq<Seq<char>> {
    let (done, cur) = split_state(p);
    if cur.len() > 0 {
        done.push(cur)
    } else {
        done
    }
}

/// The first subkey among `ids` whose name matches `name`; an error where an
/// index met before it is out of range.
pub open spec fn find_child(cells: Seq<KeyCell>, ids: Seq<usize>, name: Seq<char>) -> Result<
    Option<usize>,
    FormatError,
>
    decreases ids.len(),
{
    if ids.len() == 0 {
        Ok(None)
    } else if ids[0] >= cells.len() {
        Err(FormatError::CellOutOfRange { cell: ids[0] })
    } else if names_match(cells[ids[0] as int].name@, name) {
        Ok(Some(ids[0]))
    } else {
        find_child(cells, ids.drop_first(), name)
    }
}

/// The subkey of cell `at` named `name`, if any.
pub open spec fn subkey_of(cells: Seq<KeyCell>, at: usize, name: Seq<char>) -> Result<
    Option<usize>,
    FormatError,
> {
    match cells[at as int].subkeys {
        None => Ok(None),
        Some(Err(e)) => Err(e),
        Some(Ok(ids)) => find_child(cells, ids@, name),
    }
}

/// The key reached from cell `at` by following `comps` one name at a time.
pub open spec fn walk(cells: Seq<KeyCell>, at: usize, comps: Seq<Seq<char>>) -> Result<
    Option<usize>,
    FormatError,
>
    decreases comps.len(),
{
    if comps.len() == 0 {
        Ok(Some(at))
    } else {
        match subkey_of(cells, at, comps[0]) {
            Ok(Some(next)) => walk(cells, next, comps.drop_first()),
            other => other,
        }
    }
}

/// The subkey indices of cell `at` as a list of keys, the first out-of-range
/// index being an error.
pub open spec fn subkeys_spec(cells: Seq<KeyCell>, at: usize) -> Result<
    Option<Seq<usize>>,
    FormatError,
> {
    match cells[at as int].subkeys {
        None => Ok(None),
        Some(Err(e)) => Err(e),
        Some(Ok(ids)) => match first_out_of_range(cells.len(), ids@) {
            Some(bad) => Err(FormatError::CellOutOfRange { cell: bad }),
            None => Ok(Some(ids@)),
        },
    }
}

/// The first index in `ids` that is not below `n`.
pub open spec fn first_out_of_range(n: nat, ids: Seq<usize>) -> Option<usize>
    decreases ids.len(),
{
    if ids.len() == 0 {
        None
    } else if ids[0] >= n {
        Some(ids[0])
    } else {
        first_out_of_range(n, ids.drop_first())
    }
}

/// `trail` lists the keys met when following `comps` from `trail[0]`: each
/// is a cell of the hive, and each next one is the subkey of the one before
/// named by the matching component.
pub open spec fn follows(cells: Seq<KeyCell>, comps: Seq<Seq<char>>, trail: Seq<usize>) -> bool {
    &&& trail.len() == comps.len() + 1
    &&& forall|k: int| 0 <= k < trail.len() ==> #[trigger] trail[k] < cells.len()
    &&& forall|k: int|
        0 <= k < comps.len() ==> #[trigger] subkey_of(cells, trail[k], comps[k]) == Ok::<
            Option<usize>,
            FormatError,
        >(Some(trail[k + 1]))
}

/// Following the first components of a path along a trail of keys leaves
/// the rest of the path to be followed from the trail's last key.
pub proof fn lemma_walk_along(cells: Seq<KeyCell>, comps: Seq<Seq<char>>, trail: Seq<usize>, i: nat)
    requires
        i <= comps.len(),
        i < trail.len(),
        follows(cells, comps.take(i as int), trail.take(i as int + 1)),
    ensures
        walk(cells, trail[0], comps) == walk(cells, trail[i as int], comps.skip(i as int)),
    decreases i,
{
    if i > 0 {
        let j = (i - 1) as nat;
        assert(follows(cells, comps.take(j as int), trail.take(j as int + 1))) by {
            assert forall|k: int| 0 <= k < j implies #[trigger] subkey_of(
                cells,
                trail.take(j as int + 1)[k],
                comps.take(j as int)[k],
            ) == Ok::<Option<usize>, FormatError>(Some(trail.take(j as int + 1)[k + 1])) by {
                assert(subkey_of(cells, trail.take(i as int + 1)[k], comps.take(i as int)[k]) == Ok::<
                    Option<usize>,
                    FormatError,
                >(Some(trail.take(i as int + 1)[k + 1])));
            }
            assert forall|k: int| 0 <= k < j + 1 implies #[trigger] trail.take(j as int + 1)[k]
                < cells.len() by {
                assert(trail.take(i as int + 1)[k] < cells.len());
            }
        }
        lemma_walk_along(cells, comps, trail, j);
        let rest = comps.skip(j as int);
        assert(rest[0] == comps.take(i as int)[j as int]);
        assert(subkey_of(cells, trail.take(i as int + 1)[j as int], comps.take(i as int)[j as int])
            == Ok::<Option<usize>, FormatError>(Some(trail.take(i as int + 1)[j as int + 1])));
        assert(rest.drop_first() =~= comps.skip(i as int));
    } else {
        assert(comps.skip(0) =~= comps);
    }
}

/// A path whose every component names an existing subkey leads to the key
/// at the end of the trail.
pub proof fn lemma_walk_found(cells: Seq<KeyCell>, comps: Seq<Seq<char>>, trail: Seq<usize>)
    requires
        follows(cells, comps, trail),
    ensures
        walk(cells, trail[0], comps) == Ok::<Option<usize>, FormatError>(Some(trail.last())),
{
    assert(comps.take(comps.len() as int) =~= comps);
    assert(trail.take(comps.len() as int + 1) =~= trail);
    lemma_walk_along(cells, comps, trail, comps.len());
    assert(comps.skip(comps.len() as int) =~= Seq::<Seq<char>>::empty());
}

/// A path one of whose components names no subkey is not found: the walk
/// gives `Ok(None)`, not an error, whatever follows that component.
pub proof fn lemma_walk_missing(
    cells: Seq<KeyCell>,
    comps: Seq<Seq<char>>,
    trail: Seq<usize>,
    i: nat,
)
    requires
        i < comps.len(),
        follows(cells, comps.take(i as int), trail),
        subkey_of(cells, trail.last(), comps[i as int]) == Ok::<Option<usize>, FormatError>(None),
    ensures
        walk(cells, trail[0], comps) == Ok::<Option<usize>, FormatError>(None),
{
    assert(trail.take(i as int + 1) =~= trail);
    lemma_walk_along(cells, comps, trail, i);
    assert(comps.skip(i as int)[0] == comps[i as int]);
}

/// The path that joins `comps` with single backslashes.
pub open spec fn join_path(comps: Seq<Seq<char>>) -> Seq<char>
    decreases comps.len(),
{
    if comps.len() == 0 {
        Seq::empty()
    } else if comps.len() == 1 {
        comps[0]
    } else {
        join_path(comps.drop_last()).push('\\') + comps.last()
    }
}

/// Each component is non-empty and holds no backslash.
pub open spec fn plain_components(comps: Seq<Seq<char>>) -> bool {
    forall|i: int|
        0 <= i < comps.len() ==> (#[trigger] comps[i]).len() > 0 && !comps[i].contains('\\')
}

/// Reading characters without a backslash extends the component being read.
proof fn lemma_split_plain(p: Seq<char>, q: Seq<char>)
    requires
        !q.contains('\\'),
    ensures
        split_state(p + q) == (split_state(p).0, split_state(p).1 + q),
    decreases q.len(),
{
    if q.len() == 0 {
        assert(p + q =~= p);
        assert(split_state(p).1 + q =~= split_state(p).1);
    } else {
        let q2 = q.drop_last();
        assert(!q2.contains('\\')) by {
            if q2.contains('\\') {
                let i = choose|i: int| 0 <= i < q2.len() && q2[i] == '\\';
                assert(q[i] == '\\');
            }
        }
        lemma_split_plain(p, q2);
        assert((p + q).drop_last() =~= p + q2);
        assert((p + q).last() == q.last());
        assert(q.last() != '\\') by {
            if q.last() == '\\' {
                assert(q[q.len() - 1] == '\\');
            }
        }
        assert(split_state(p).1 + q2.push(q.last()) =~= split_state(p).1 + q);
        assert((split_state(p).1 + q2).push(q.last()) =~= split_state(p).1 + q);
    }
}

/// Splitting a joined path gives back the components before the last, and
/// the last as the one being read.
proof fn lemma_split_joined(comps: Seq<Seq<char>>)
    requires
        comps.len() >= 1,
        plain_components(comps),
    ensures
        split_state(join_path(comps)) == (comps.drop_last(), comps.last()),
    decreases comps.len(),
{
    if comps.len() == 1 {
        lemma_split_plain(Seq::empty(), comps[0]);
        assert(Seq::<char>::empty() + comps[0] =~= comps[0]);
        assert(split_state(Seq::<char>::empty()) == (Seq::<Seq<char>>::empty(), Seq::<char>::empty()));
        assert(Seq::<char>::empty() + comps[0] =~= comps[0]);
        assert(comps.drop_last() =~= Seq::<Seq<char>>::empty());
    } else {
        let d = comps.drop_last();
        assert(plain_components(d)) by {
            assert forall|i: int| 0 <= i < d.len() implies (#[trigger] d[i]).len() > 0 && !d[i].contains('\\') by {
                assert(d[i] == comps[i]);
            }
        }
        lemma_split_joined(d);
        let j = join_path(d).push('\\');
        assert(j.drop_last() =~= join_path(d));
        assert(d.last() == comps[comps.len() - 2]);
        assert(split_state(j) == (d.drop_last().push(d.last()), Seq::<char>::empty()));
        assert(d.drop_last().push(d.last()) =~= d);
        assert(comps.last() == comps[comps.len() - 1]);
        lemma_split_plain(j, comps.last());
        assert(Seq::<char>::empty() + comps.last() =~= comps.last());
    }
}

/// The components of a joined path are the components joined.
pub proof fn lemma_components_of_joined(comps: Seq<Seq<char>>)
    requires
        plain_components(comps),
    ensures
        path_components(join_path(comps)) == comps,
{
    if comps.len() == 0 {
        assert(split_state(Seq::<char>::empty()) == (Seq::<Seq<char>>::empty(), Seq::<char>::empty()));
    } else {
        lemma_split_joined(comps);
        assert(comps.last() == comps[comps.len() - 1]);
        assert(comps.drop_last().push(comps.last()) =~= comps);
    }
}

/// Navigating a path `A\B\C` whose every component names an existing
/// subkey reaches the key at the end of the trail; where one component
/// names no subkey, the walk gives `Ok(None)`, not an error.
pub proof fn lemma_navigate_joined(cells: Seq<KeyCell>, comps: Seq<Seq<char>>, trail: Seq<usize>)
    requires
        plain_components(comps),
        trail.len() >= 1,
        forall|k: int| 0 <= k < trail.len() ==> #[trigger] trail[k] < cells.len(),
    ensures
        follows(cells, comps, trail) ==> walk(cells, trail[0], path_components(join_path(comps)))
            == Ok::<Option<usize>, FormatError>(Some(trail.last())),
        forall|i: nat|
            i < comps.len() && i < trail.len() && #[trigger] follows(cells, comps.take(i as int), trail.take(i as int + 1)) && subkey_of(
                cells,
                trail[i as int],
                comps[i as int],
            ) == Ok::<Option<usize>, FormatError>(None) ==> walk(
                cells,
                trail[0],
                path_components(join_path(comps)),
            ) == Ok::<Option<usize>, FormatError>(None),
{
    lemma_components_of_joined(comps);
    if follows(cells, comps, trail) {
        lemma_walk_found(cells, comps, trail);
    }
    assert forall|i: nat|
        i < comps.len() && i < trail.len() && #[trigger] follows(cells, comps.take(i as int), trail.take(i as int + 1)) && subkey_of(
            cells,
            trail[i as int],
            comps[i as int],
        ) == Ok::<Option<usize>, FormatError>(None) implies walk(
            cells,
            trail[0],
            path_components(join_path(comps)),
        ) == Ok::<Option<usize>, FormatError>(None) by {
        let t = trail.take(i as int + 1);
        assert(t[0] == trail[0]);
        assert(t.last() == trail[i as int]);
        lemma_walk_missing(cells, comps, t, i);
    }
}

/// The first value of `vs` whose name matches `name`.
pub open spec fn first_named(vs: Seq<Value>, name: Seq<char>) -> Option<Value>
    decreases vs.len(),
{
    if vs.len() == 0 {
        None
    } else if names_match(vs[0].name@, name) {
        Some(vs[0])
    } else {
        first_named(vs.drop_first(), name)
    }
}

/// The first match of a name is the one that `read_value` characterises.
pub proof fn lemma_first_named(vs: Seq<Value>, name: Seq<char>, i: int)
    requires
        0 <= i <= vs.len(),
        forall|j: int| 0 <= j < i ==> !names_match(#[trigger] vs[j].name@, name),
    ensures
        i < vs.len() && names_match(vs[i].name@, name) ==> first_named(vs, name) == Some(vs[i]),
        i == vs.len() ==> first_named(vs, name) is None,
    decreases i,
{
    if i > 0 {
        let rest = vs.drop_first();
        assert forall|j: int| 0 <= j < i - 1 implies !names_match(#[trigger] rest[j].name@, name) by {
            assert(rest[j] == vs[j + 1]);
        }
        lemma_first_named(rest, name, i - 1);
        if i < vs.len() {
            assert(rest[i - 1] == vs[i]);
        }
    }
}

/// Whether two names are equal up to ASCII case.
pub fn name_matches(a: &str, b: &str) -> (r: bool)
    ensures
        r == names_match(a@, b@),
{
    let n = a.unicode_len();
    if n != b.unicode_len() {
        return false;
    }
    let mut i: usize = 0;
    while i < n
        invariant
            n == a@.len(),
            n == b@.len(),
            i <= n,
            forall|j: int| 0 <= j < i ==> fold_code(#[trigger] a@[j]) == fold_code(b@[j]),
        decreases n - i,
    {
        let x = a.get_char(i) as u32;
        let y = b.get_char(i) as u32;
        let fx = if 97 <= x && x <= 122 { x - 32 } else { x };
        let fy = if 97 <= y && y <= 122 { y - 32 } else { y };
        if fx != fy {
            return false;
        }
        i = i + 1;
    }
    true
}

/// Splits a path into its non-empty backslash-separated components.
pub fn split_path(path: &str) -> (r: Vec<Vec<char>>)
    ensures
        r@.map_values(|v: Vec<char>| v@) == path_components(path@),
{
    let n = path.unicode_len();
    let mut done: Vec<Vec<char>> = Vec::new();
    let mut cur: Vec<char> = Vec::new();
    let mut i: usize = 0;
    while i < n
        invariant
            n == path@.len(),
            i <= n,
            done@.map_values(|v: Vec<char>| v@) == split_state(path@.subrange(0, i as int)).0,
            cur@ == split_state(path@.subrange(0, i as int)).1,
        decreases n - i,
    {
        let c = path.get_char(i);
        proof {
            let p = path@.subrange(0, i as int + 1);
            assert(p.drop_last() =~= path@.subrange(0, i as int));
            assert(p.last() == c);
        }
        if c == '\\' {
            if cur.len() > 0 {
                let ghost before = done@;
                done.push(cur);
                cur = Vec::new();
                proof {
                    assert(done@ == before.push(done@.last()));
                    assert(done@.map_values(|v: Vec<char>| v@) =~= before.map_values(
                        |v: Vec<char>| v@,
                    ).push(done@.last()@));
                }
            } else {
                cur = Vec::new();
            }
        } else {
            cur.push(c);
        }
        i = i + 1;
    }
    assert(path@.subrange(0, n as int) =~= path@);
    if cur.len() > 0 {
        let ghost before = done@;
        done.push(cur);
        assert(done@.map_values(|v: Vec<char>| v@) =~= before.map_values(|v: Vec<char>| v@).push(
            done@.last()@,
        ));
    }
    done
}

/// Whether a name held as characters equals a string up to ASCII case.
fn chars_match_name(a: &Vec<char>, b: &str) -> (r: bool)
    ensures
        r == names_match(a@, b@),
{
    let n = a.len();
    if n != b.unicode_len() {
        return false;
    }
    let mut i: usize = 0;
    while i < n
        invariant
            n == a@.len(),
            n == b@.len(),
            i <= n,
            forall|j: int| 0 <= j < i ==> fold_code(#[trigger] a@[j]) == fold_code(b@[j]),
        decreases n - i,
    {
        let x = a[i] as u32;
        let y = b.get_char(i) as u32;
        let fx = if 97 <= x && x <= 122 { x - 32 } else { x };
        let fy = if 97 <= y && y <= 122 { y - 32 } else { y };
        if fx != fy {
            return false;
        }
        i = i + 1;
    }
    true
}

impl Hive {
    /// The root key, or an error where the root index is out of range.
    pub fn root(&self) -> (r: Result<KeyNode, FormatError>)
        ensures
            self.root < self.cells@.len() ==> r == Ok::<KeyNode, FormatError>(
                KeyNode { cell: self.root },
            ),
            self.root >= self.cells@.len() ==> r == Err::<KeyNode, FormatError>(
                FormatError::CellOutOfRange { cell: self.root },
            ),
    {
        if self.root < self.cells.len() {
            Ok(KeyNode { cell: self.root })
        } else {
            Err(FormatError::CellOutOfRange { cell: self.root })
        }
    }

    /// The name of a key.
    pub fn name(&self, node: KeyNode) -> (r: &String)
        requires
            node.cell < self.cells@.len(),
        ensures
            r@ == self.cells@[node.cell as int].name@,
    {
        &self.cells[node.cell].name
    }

    /// The last-write time of a key, in FILETIME ticks.
    pub fn timestamp(&self, node: KeyNode) -> (r: u64)
        requires
            node.cell < self.cells@.len(),
        ensures
            r == self.cells@[node.cell as int].timestamp,
    {
        self.cells[node.cell].timestamp
    }

    /// The subkey of `node` whose name matches `name`. A missing subkey is
    /// `Ok(None)`; an unreadable list or an index out of range is an error.
    pub fn subkey(&self, node: KeyNode, name: &Vec<char>) -> (r: Result<Option<KeyNode>, FormatError>)
        requires
            node.cell < self.cells@.len(),
        ensures
            r matches Ok(Some(k)) ==> k.cell < self.cells@.len(),
            match subkey_of(self.cells@, node.cell, name@) {
                Ok(Some(c)) => r == Ok::<Option<KeyNode>, FormatError>(Some(KeyNode { cell: c })),
                Ok(None) => r == Ok::<Option<KeyNode>, FormatError>(None),
                Err(e) => r == Err::<Option<KeyNode>, FormatError>(e),
            },
    {
        match &self.cells[node.cell].subkeys {
            None => Ok(None),
            Some(Err(e)) => Err(*e),
            Some(Ok(ids)) => {
                assert(ids@.subrange(0, ids@.len() as int) =~= ids@);
                let mut i: usize = 0;
                while i < ids.len()
                    invariant
                        node.cell < self.cells@.len(),
                        self.cells@[node.cell as int].subkeys == Some(
                            Ok::<Vec<usize>, FormatError>(*ids),
                        ),
                        i <= ids@.len(),
                        find_child(self.cells@, ids@, name@) == find_child(
                            self.cells@,
                            ids@.subrange(i as int, ids@.len() as int),
                            name@,
                        ),
                    decreases ids.len() - i,
                {
                    let id = ids[i];
                    proof {
                        let rest = ids@.subrange(i as int, ids@.len() as int);
                        assert(rest[0] == id);
                        assert(rest.drop_first() =~= ids@.subrange(i as int + 1, ids@.len() as int));
                    }
                    if id >= self.cells.len() {
                        proof {
                            let rest = ids@.subrange(i as int, ids@.len() as int);
                            assert(find_child(self.cells@, rest, name@) == Err::<Option<usize>, FormatError>(
                                FormatError::CellOutOfRange { cell: id },
                            ));
                        }
                        return Err(FormatError::CellOutOfRange { cell: id });
                    }
                    if chars_match_name(name, self.cells[id].name.as_str()) {
                        proof {
                            assert(names_match(self.cells@[id as int].name@, name@)) by {
                                let a = self.cells@[id as int].name@;
                                assert forall|j: int| 0 <= j < a.len() implies fold_code(
                                    #[trigger] a[j],
                                ) == fold_code(name@[j]) by {
                                    assert(fold_code(name@[j]) == fold_code(a[j]));
                                }
                            }
                        }
                        return Ok(Some(KeyNode { cell: id }));
                    }
                    proof {
                        if names_match(self.cells@[id as int].name@, name@) {
                            let a = self.cells@[id as int].name@;
                            assert forall|j: int| 0 <= j < name@.len() implies fold_code(
                                #[trigger] name@[j],
                            ) == fold_code(a[j]) by {
                                assert(fold_code(a[j]) == fold_code(name@[j]));
                            }
                        }
                    }
                    i = i + 1;
                }
                Ok(None)
            }
        }
    }

    /// The key reached from `node` by the backslash-separated `path`.
    /// A missing component anywhere along the path is `Ok(None)`, never an
    /// error; errors are kept for structural defects met on the way.
    pub fn subpath(&self, node: KeyNode, path: &str) -> (r: Result<Option<KeyNode>, FormatError>)
        requires
            node.cell < self.cells@.len(),
        ensures
            r matches Ok(Some(k)) ==> k.cell < self.cells@.len(),
            match walk(self.cells@, node.cell, path_components(path@)) {
                Ok(Some(c)) => r == Ok::<Option<KeyNode>, FormatError>(Some(KeyNode { cell: c })),
                Ok(None) => r == Ok::<Option<KeyNode>, FormatError>(None),
                Err(e) => r == Err::<Option<KeyNode>, FormatError>(e),
            },
    {
        let comps = split_path(path);
        let ghost cs = comps@.map_values(|v: Vec<char>| v@);
        let mut at = node;
        assert(cs.subrange(0, cs.len() as int) =~= cs);
        let mut i: usize = 0;
        while i < comps.len()
            invariant
                cs == comps@.map_values(|v: Vec<char>| v@),
                cs == path_components(path@),
                i <= comps@.len(),
                at.cell < self.cells@.len(),
                walk(self.cells@, node.cell, cs) == walk(
                    self.cells@,
                    at.cell,
                    cs.subrange(i as int, cs.len() as int),
                ),
            decreases comps.len() - i,
        {
            let ghost rest = cs.subrange(i as int, cs.len() as int);
            proof {
                assert(rest[0] == comps@[i as int]@);
                assert(rest.drop_first() =~= cs.subrange(i as int + 1, cs.len() as int));
            }
            match self.subkey(at, &comps[i]) {
                Ok(Some(next)) => {
                    at = next;
                },
                Ok(None) => {
                    return Ok(None);
                },
                Err(e) => {
                    return Err(e);
                },
            }
            i = i + 1;
        }
        proof {
            assert(cs.subrange(i as int, cs.len() as int) =~= Seq::<Seq<char>>::empty());
        }
        Ok(Some(at))
    }

    /// The key reached from the root by `path`; see `subpath`.
    pub fn navigate(&self, path: &str) -> (r: Result<Option<KeyNode>, FormatError>)
        ensures
            r matches Ok(Some(k)) ==> k.cell < self.cells@.len(),
            self.root >= self.cells@.len() ==> r == Err::<Option<KeyNode>, FormatError>(
                FormatError::CellOutOfRange { cell: self.root },
            ),
            self.root < self.cells@.len() ==> match walk(
                self.cells@,
                self.root,
                path_components(path@),
            ) {
                Ok(Some(c)) => r == Ok::<Option<KeyNode>, FormatError>(Some(KeyNode { cell: c })),
                Ok(None) => r == Ok::<Option<KeyNode>, FormatError>(None),
                Err(e) => r == Err::<Option<KeyNode>, FormatError>(e),
            },
    {
        match self.root() {
            Ok(root) => self.subpath(root, path),
            Err(e) => Err(e),
        }
    }

    /// The subkeys of `node`: `Ok(None)` where it has no subkey list, an error
    /// where the list is unreadable or names a cell out of range.
    pub fn list_subkeys(&self, node: KeyNode) -> (r: Result<Option<Vec<KeyNode>>, FormatError>)
        requires
            node.cell < self.cells@.len(),
        ensures
            match subkeys_spec(self.cells@, node.cell) {
                Ok(Some(ids)) => r matches Ok(Some(ks)) && ks@.len() == ids.len() && forall|j: int|
                    0 <= j < ids.len() ==> (#[trigger] ks@[j]).cell == ids[j] && ids[j]
                        < self.cells@.len(),
                Ok(None) => r == Ok::<Option<Vec<KeyNode>>, FormatError>(None),
                Err(e) => r matches Err(e2) && e2 == e,
            },
    {
        match &self.cells[node.cell].subkeys {
            None => Ok(None),
            Some(Err(e)) => Err(*e),
            Some(Ok(ids)) => {
                let mut out: Vec<KeyNode> = Vec::new();
                assert(ids@.subrange(0, ids@.len() as int) =~= ids@);
                let mut i: usize = 0;
                while i < ids.len()
                    invariant
                        node.cell < self.cells@.len(),
                        self.cells@[node.cell as int].subkeys == Some(
                            Ok::<Vec<usize>, FormatError>(*ids),
                        ),
                        i <= ids@.len(),
                        out@.len() == i,
                        forall|j: int|
                            0 <= j < i ==> (#[trigger] out@[j]).cell == ids@[j] && ids@[j]
                                < self.cells@.len(),
                        first_out_of_range(self.cells@.len(), ids@) == first_out_of_range(
                            self.cells@.len(),
                            ids@.subrange(i as int, ids@.len() as int),
                        ),
                    decreases ids.len() - i,
                {
                    let id = ids[i];
                    proof {
                        let rest = ids@.subrange(i as int, ids@.len() as int);
                        assert(rest[0] == id);
                        assert(rest.drop_first() =~= ids@.subrange(i as int + 1, ids@.len() as int));
                    }
                    if id >= self.cells.len() {
                        return Err(FormatError::CellOutOfRange { cell: id });
                    }
                    out.push(KeyNode { cell: id });
                    i = i + 1;
                }
                proof {
                    assert(ids@.subrange(i as int, ids@.len() as int) =~= Seq::<usize>::empty());
                }
                Ok(Some(out))
            }
        }
    }

    /// The values of `node`: `Ok(None)` where it has no value list, an error
    /// where the list could not be read.
    pub fn values(&self, node: KeyNode) -> (r: Result<Option<&Vec<Value>>, FormatError>)
        requires
            node.cell < self.cells@.len(),
        ensures
            match self.cells@[node.cell as int].values {
                None => r matches Ok(None),
                Some(Err(e)) => r == Err::<Option<&Vec<Value>>, FormatError>(e),
                Some(Ok(vs)) => (r matches Ok(Some(v)) && v@ == vs@),
            },
    {
        match &self.cells[node.cell].values {
            None => Ok(None),
            Some(Err(e)) => Err(*e),
            Some(Ok(vs)) => Ok(Some(vs)),
        }
    }

    /// The first value of `node` whose name matches `name`. A missing value
    /// (or a key without values) is `Ok(None)`; an unreadable value list is an
    /// error.
    pub fn read_value(&self, node: KeyNode, name: &str) -> (r: Result<Option<&Value>, FormatError>)
        requires
            node.cell < self.cells@.len(),
        ensures
            match self.cells@[node.cell as int].values {
                None => r matches Ok(None),
                Some(Err(e)) => r == Err::<Option<&Value>, FormatError>(e),
                Some(Ok(vs)) => match r {
                    Ok(Some(v)) => exists|i: int|
                        #![trigger vs@[i]]
                        0 <= i < vs@.len() && *v == vs@[i] && names_match(vs@[i].name@, name@)
                            && forall|j: int|
                            0 <= j < i ==> !names_match(#[trigger] vs@[j].name@, name@),
                    Ok(None) => forall|j: int|
                        0 <= j < vs@.len() ==> !names_match(#[trigger] vs@[j].name@, name@),
                    Err(_) => false,
                },
            },
    {
        match &self.cells[node.cell].values {
            None => Ok(None),
            Some(Err(e)) => Err(*e),
            Some(Ok(vs)) => {
                let mut i: usize = 0;
                while i < vs.len()
                    invariant
                        node.cell < self.cells@.len(),
                        self.cells@[node.cell as int].values == Some(
                            Ok::<Vec<Value>, FormatError>(*vs),
                        ),
                        i <= vs@.len(),
                        forall|j: int| 0 <= j < i ==> !names_match(#[trigger] vs@[j].name@, name@),
                    decreases vs.len() - i,
                {
                    if name_matches(vs[i].name.as_str(), name) {
                        let found = &vs[i];
                        proof {
                            let k = i as int;
                            let listed = self.cells@[node.cell as int].values->Some_0->Ok_0;
                            assert(listed@ == vs@);
                            assert(*found == listed@[k]);
                        }
                        return Ok(Some(found));
                    }
                    i = i + 1;
                }
                Ok(None)
            },
        }
    }
}

} // verus!
