//! Paths as sequences of components.
//!
//! Two spellings lead along the same components if they differ only in repeated
//! or trailing separators and in `.` after the beginning. `..` and `.` at the
//! beginning of a relative path are components like any other.
use vstd::prelude::*;

verus! {

pub const SEPARATOR: u8 = 0x2f;

pub const DOT: u8 = 0x2e;

/// What stands before, between and after the separators.
pub open spec fn pieces(path: Seq<u8>) -> Seq<Seq<u8>>
    decreases path.len(),
{
    if path.len() == 0 {
        seq![Seq::empty()]
    } else {
        let before = pieces(path.drop_last());
        if path.last() == SEPARATOR {
            before.push(Seq::empty())
        } else {
            before.drop_last().push(before.last().push(path.last()))
        }
    }
}

/// A piece that leads somewhere.
pub open spec fn leads(piece: Seq<u8>) -> bool {
    piece.len() > 0 && piece != seq![DOT]
}

/// The components of a path: whether it begins at the root, whether it begins
/// with `.`, and the names that follow.
#[verifier::ext_equal]
pub ghost struct PathComponents {
    pub rooted: bool,
    pub dotted: bool,
    pub names: Seq<Seq<u8>>,
}

pub open spec fn rooted(path: Seq<u8>) -> bool {
    path.len() > 0 && path[0] == SEPARATOR
}

pub open spec fn names(path: Seq<u8>) -> Seq<Seq<u8>> {
    pieces(path).filter(|piece: Seq<u8>| leads(piece))
}

pub open spec fn components(path: Seq<u8>) -> PathComponents {
    PathComponents {
        rooted: rooted(path),
        dotted: pieces(path)[0] == seq![DOT],
        names: names(path),
    }
}

proof fn lemma_pieces_nonempty(path: Seq<u8>)
    ensures
        pieces(path).len() > 0,
    decreases path.len(),
{
    if path.len() > 0 {
        lemma_pieces_nonempty(path.drop_last());
    }
}

/// The first piece is settled by the first separator.
proof fn lemma_first_piece(path: Seq<u8>)
    ensures
        pieces(path).len() > 0,
        (pieces(path)[0] == seq![DOT]) == (path.len() > 0 && path[0] == DOT && (path.len() == 1
            || path[1] == SEPARATOR)),
        pieces(path).len() == 1 ==> pieces(path)[0] == path,
        pieces(path).len() == 1 <==> !path.contains(SEPARATOR),
    decreases path.len(),
{
    assert(seq![DOT].len() == 1 && seq![DOT][0] == DOT);
    if path.len() > 0 {
        let before = path.drop_last();
        lemma_first_piece(before);
        assert(before.push(path.last()) =~= path);
        assert(path[path.len() - 1] == path.last());
        assert(forall|i: int| 0 <= i < before.len() ==> before[i] == path[i]);
        if path.contains(SEPARATOR) && path.last() != SEPARATOR {
            let i = path.index_of(SEPARATOR);
            assert(before[i] == SEPARATOR);
        }
        if pieces(path).len() == 1 {
            assert(pieces(path)[0] == path);
            if path.len() == 1 {
                assert(path =~= seq![path[0]]);
            } else {
                assert(path[1] != SEPARATOR);
            }
        } else {
            assert(pieces(path)[0] == pieces(before)[0]);
            if path.len() == 2 && path[1] != SEPARATOR {
                assert(path[0] == SEPARATOR);
            }
        }
    }
}

fn same_bytes(left: &Vec<u8>, right: &Vec<u8>) -> (same: bool)
    ensures
        same == (left@ == right@),
{
    if left.len() != right.len() {
        return false;
    }
    let mut i: usize = 0;
    while i < left.len()
        invariant
            left@.len() == right@.len(),
            i <= left@.len(),
            forall|j: int| 0 <= j < i ==> left@[j] == right@[j],
        decreases left@.len() - i,
    {
        if left[i] != right[i] {
            return false;
        }
        i += 1;
    }
    assert(left@ =~= right@);
    true
}

fn piece_leads(piece: &Vec<u8>) -> (leading: bool)
    ensures
        leading == leads(piece@),
{
    let dot = piece.len() == 1 && piece[0] == DOT;
    assert(dot ==> piece@ =~= seq![DOT]);
    piece.len() > 0 && !dot
}

spec fn spellings(found: Seq<Vec<u8>>) -> Seq<Seq<u8>> {
    found.map_values(|name: Vec<u8>| name@)
}

/// The names in a path, each as it is spelled.
fn path_names(path: &Vec<u8>) -> (found: Vec<Vec<u8>>)
    ensures
        spellings(found@) == names(path@),
{
    let ghost keep = |piece: Seq<u8>| leads(piece);
    let mut found: Vec<Vec<u8>> = Vec::new();
    let mut piece: Vec<u8> = Vec::new();
    let mut i: usize = 0;
    assert(path@.take(0) =~= Seq::<u8>::empty());
    assert(pieces(path@.take(0)).drop_last() =~= Seq::<Seq<u8>>::empty());
    reveal(Seq::filter);
    while i < path.len()
        invariant
            i <= path@.len(),
            keep == (|piece: Seq<u8>| leads(piece)),
            pieces(path@.take(i as int)).len() > 0,
            piece@ == pieces(path@.take(i as int)).last(),
            spellings(found@) == pieces(path@.take(i as int)).drop_last().filter(keep),
        decreases path@.len() - i,
    {
        let ghost before = pieces(path@.take(i as int));
        let ghost next = pieces(path@.take(i + 1));
        proof {
            assert(path@.take(i + 1).drop_last() =~= path@.take(i as int));
            assert(before.drop_last().push(before.last()) =~= before);
            before.drop_last().lemma_filter_push(before.last(), keep);
        }
        if path[i] == SEPARATOR {
            assert(next.drop_last() =~= before);
            if piece_leads(&piece) {
                let ghost kept = spellings(found@);
                found.push(piece);
                assert(spellings(found@) =~= kept.push(before.last()));
            }
            piece = Vec::new();
        } else {
            assert(next.drop_last() =~= before.drop_last());
            piece.push(path[i]);
        }
        i += 1;
    }
    let ghost all = pieces(path@);
    proof {
        assert(path@.take(i as int) =~= path@);
        assert(all.drop_last().push(all.last()) =~= all);
        all.drop_last().lemma_filter_push(all.last(), keep);
    }
    if piece_leads(&piece) {
        let ghost kept = spellings(found@);
        found.push(piece);
        assert(spellings(found@) =~= kept.push(all.last()));
    }
    found
}

/// Whether a path begins at the root.
pub fn is_absolute(path: &Vec<u8>) -> (absolute: bool)
    ensures
        absolute == rooted(path@),
{
    path.len() > 0 && path[0] == SEPARATOR
}

fn begins_with_dot(path: &Vec<u8>) -> (begins: bool)
    ensures
        begins == components(path@).dotted,
{
    proof {
        lemma_first_piece(path@);
    }
    path.len() > 0 && path[0] == DOT && (path.len() == 1 || path[1] == SEPARATOR)
}

/// Whether two paths have the same components.
pub fn same_path(left: &Vec<u8>, right: &Vec<u8>) -> (same: bool)
    ensures
        same == (components(left@) == components(right@)),
{
    if is_absolute(left) != is_absolute(right) || begins_with_dot(left) != begins_with_dot(
        right,
    ) {
        return false;
    }
    let left_names = path_names(left);
    let right_names = path_names(right);
    let ghost left_view = spellings(left_names@);
    let ghost right_view = spellings(right_names@);
    if left_names.len() != right_names.len() {
        assert(left_view.len() != right_view.len());
        return false;
    }
    let mut i: usize = 0;
    while i < left_names.len()
        invariant
            left_names@.len() == right_names@.len(),
            i <= left_names@.len(),
            left_view == spellings(left_names@),
            right_view == spellings(right_names@),
            left_view == names(left@),
            right_view == names(right@),
            forall|j: int| 0 <= j < i ==> left_view[j] == right_view[j],
        decreases left_names@.len() - i,
    {
        if !same_bytes(&left_names[i], &right_names[i]) {
            assert(left_view[i as int] != right_view[i as int]);
            return false;
        }
        i += 1;
    }
    assert(left_view =~= right_view);
    true
}

proof fn lemma_pieces_of_joined(left: Seq<u8>, right: Seq<u8>)
    ensures
        pieces(left + seq![SEPARATOR] + right) == pieces(left) + pieces(right),
    decreases right.len(),
{
    let joined = left + seq![SEPARATOR] + right;
    lemma_pieces_nonempty(right.drop_last());
    if right.len() == 0 {
        assert(joined.drop_last() =~= left);
        assert(pieces(joined) =~= pieces(left) + pieces(right));
    } else {
        lemma_pieces_of_joined(left, right.drop_last());
        assert(joined.drop_last() =~= left + seq![SEPARATOR] + right.drop_last());
        assert(pieces(joined) =~= pieces(left) + pieces(right));
    }
}

proof fn lemma_names_of_joined(left: Seq<u8>, right: Seq<u8>)
    ensures
        names(left + seq![SEPARATOR] + right) == names(left) + names(right),
        components(left + seq![SEPARATOR] + right).rooted == (left.len() == 0 || rooted(left)),
        components(left + seq![SEPARATOR] + right).dotted == components(left).dotted,
{
    lemma_pieces_of_joined(left, right);
    lemma_pieces_nonempty(left);
    Seq::filter_distributes_over_add(pieces(left), pieces(right), |piece: Seq<u8>| leads(piece));
}

/// A repeated separator, and a `.` between two separators, change nothing; nor
/// does a separator at the end.
pub proof fn law_separators_and_inner_dots_change_nothing(left: Seq<u8>, right: Seq<u8>)
    ensures
        components(left + seq![SEPARATOR, SEPARATOR] + right) == components(
            left + seq![SEPARATOR] + right,
        ),
        components(left + seq![SEPARATOR, DOT, SEPARATOR] + right) == components(
            left + seq![SEPARATOR] + right,
        ),
        left.len() > 0 ==> components(left.push(SEPARATOR)) == components(left),
{
    reveal_with_fuel(Seq::filter, 3);
    let empty = Seq::<u8>::empty();
    let dot = seq![DOT];
    lemma_names_of_joined(left, right);
    lemma_names_of_joined(left, empty);
    lemma_names_of_joined(left, dot);
    lemma_names_of_joined(left + seq![SEPARATOR] + empty, right);
    lemma_names_of_joined(left + seq![SEPARATOR] + dot, right);
    assert(left + seq![SEPARATOR, SEPARATOR] + right =~= (left + seq![SEPARATOR] + empty)
        + seq![SEPARATOR] + right);
    assert(left + seq![SEPARATOR, DOT, SEPARATOR] + right =~= (left + seq![SEPARATOR] + dot)
        + seq![SEPARATOR] + right);
    assert(left.push(SEPARATOR) =~= left + seq![SEPARATOR] + empty);
    assert(pieces(empty) =~= seq![empty]);
    assert(dot.drop_last() =~= empty);
    assert(pieces(dot) =~= seq![dot]);
    let keep = |piece: Seq<u8>| leads(piece);
    assert(seq![empty].drop_last() =~= Seq::<Seq<u8>>::empty());
    assert(seq![dot].drop_last() =~= Seq::<Seq<u8>>::empty());
    assert(names(empty) =~= Seq::<Seq<u8>>::empty());
    assert(names(dot) =~= Seq::<Seq<u8>>::empty());
    assert(names(left) + Seq::<Seq<u8>>::empty() =~= names(left));
}

/// A single name, neither empty nor a lone dot, and without a slash in it.
pub open spec fn plain_name(name: Seq<u8>) -> bool {
    &&& name.len() > 0
    &&& name != seq![46u8]
    &&& forall|i: int| 0 <= i < name.len() ==> #[trigger] name[i] != 47u8
}

proof fn lemma_names_of_plain_name(name: Seq<u8>)
    requires
        plain_name(name),
    ensures
        names(name) == seq![name],
{
    lemma_first_piece(name);
    assert(!name.contains(SEPARATOR));
    assert(pieces(name) =~= seq![name]);
    reveal_with_fuel(Seq::filter, 2);
    let keep = |piece: Seq<u8>| leads(piece);
    assert(seq![name].drop_last() =~= Seq::<Seq<u8>>::empty());
    assert(keep(name));
    assert(names(name) =~= seq![name]);
}

/// Paths with different last names are different, whatever the names are, two
/// dots among them; and so are paths that lead to the same name from places that
/// differ in a name.
pub proof fn law_different_names_lead_apart(
    left: Seq<u8>,
    right: Seq<u8>,
    name: Seq<u8>,
    other: Seq<u8>,
)
    requires
        plain_name(name),
        plain_name(other),
        components(left + seq![47u8] + name) == components(right + seq![47u8] + other),
    ensures
        name == other,
        components(left).names == components(right).names,
        components(left + seq![47u8] + name).names == components(left).names.push(name),
{
    lemma_names_of_joined(left, name);
    lemma_names_of_joined(right, other);
    lemma_names_of_plain_name(name);
    lemma_names_of_plain_name(other);
    let whole = names(left) + seq![name];
    let same = names(right) + seq![other];
    assert(whole == same);
    assert(whole.last() == name);
    assert(same.last() == other);
    assert(whole.drop_last() =~= names(left));
    assert(same.drop_last() =~= names(right));
    assert(whole =~= names(left).push(name));
}

/// A path begins at the root exactly if its first byte is a slash, and at the
/// place that it is taken from exactly if it is a dot or begins with a dot and a
/// slash; a path that does is never the same as one that does not.
pub proof fn law_beginning_counts(path: Seq<u8>)
    ensures
        components(path).rooted <==> path.len() > 0 && path[0] == 47,
        components(path).dotted <==> path.len() > 0 && path[0] == 46 && (path.len() == 1 || path[1]
            == 47),
{
    lemma_first_piece(path);
}

} // verus!
