//! Shuffling the player's queue.

use crate::lists;
use crate::mpv::{PlayerCommand, PlayerCommandView, PlaylistEntry, PlaylistEntryView};
use crate::text;
use vstd::prelude::*;

verus! {

// ---------------------------------------------------------------------------
// A shuffle in place
// ---------------------------------------------------------------------------

/// The next state of the generator.
pub open spec fn next_state(state: u64) -> u64 {
    let a = state ^ (state << 13);
    let b = a ^ (a >> 7);
    b ^ (b << 17)
}

/// The first state of the generator: the clock, or a fixed number where the clock gives
/// none or zero.
pub open spec fn seed(clock: Option<u64>) -> u64 {
    match clock {
        Some(n) => if n == 0 {
            0xdead_beef
        } else {
            n
        },
        None => 0xdead_beef,
    }
}

/// The place up to `i` that a state of the generator picks.
pub open spec fn pick(state: u64, i: nat) -> int {
    (state as usize) as int % (i as int + 1)
}

/// A list whose items at `i`, `i - 1` and so on to `1` have each been exchanged with one
/// that the generator picked.
pub open spec fn shuffled_down<T>(v: Seq<T>, i: nat, state: u64) -> Seq<T>
    decreases i,
{
    if i == 0 {
        v
    } else {
        let s = next_state(state);
        shuffled_down(lists::swapped(v, i as int, pick(s, i)), (i - 1) as nat, s)
    }
}

/// A list after a shuffle.
pub open spec fn shuffled<T>(v: Seq<T>, clock: Option<u64>) -> Seq<T> {
    if v.len() == 0 {
        v
    } else {
        shuffled_down(v, (v.len() - 1) as nat, seed(clock))
    }
}

/// Shuffles a list. The clock gives the nanoseconds since 1970, if it is not set before.
pub fn shuffle_in_place<T>(v: &mut [T], clock: Option<u64>)
    ensures
        final(v)@ == shuffled(old(v)@, clock),
{
    let mut state: u64 = match clock {
        Some(n) => n,
        None => 0xdead_beef,
    };
    if state == 0 {
        state = 0xdead_beef;
    }
    if v.len() == 0 {
        return;
    }
    let mut i: usize = v.len() - 1;
    while i > 0
        invariant
            i < v.len(),
            shuffled_down(v@, i as nat, state) == shuffled(old(v)@, clock),
        decreases i,
    {
        state = state ^ (state << 13);
        state = state ^ (state >> 7);
        state = state ^ (state << 17);
        let j: usize = (state as usize) % (i + 1);
        v.swap(i, j);
        i = i - 1;
    }
}

// ---------------------------------------------------------------------------
// The moves that bring a queue into an order
// ---------------------------------------------------------------------------

/// The queue after the player has moved an entry: the entry is taken out, and put before
/// the entry that stood at `to`.
pub open spec fn player_move<T>(queue: Seq<T>, from: int, to: int) -> Seq<T> {
    queue.remove(from).insert(
        if from < to {
            to - 1
        } else {
            to
        },
        queue[from],
    )
}

/// The queue after the player has done moves.
pub open spec fn after_moves<T>(queue: Seq<T>, commands: Seq<PlayerCommandView>) -> Seq<T>
    decreases commands.len(),
{
    if commands.len() == 0 {
        queue
    } else {
        let next = match commands[0] {
            PlayerCommandView::Move { from, to } => player_move(queue, from as int, to as int),
            _ => queue,
        };
        after_moves(next, commands.skip(1))
    }
}

/// The first place from `from` on that holds `x`; the length where none does.
pub open spec fn place_from(s: Seq<Seq<char>>, from: int, x: Seq<char>) -> int
    decreases s.len() - from,
{
    if from >= s.len() || s[from] == x {
        from
    } else {
        place_from(s, from + 1, x)
    }
}

/// The moves that bring what stands at `i` and behind into the order of `target`: for
/// each place that is wrong, the next entry that belongs there is moved to it.
pub open spec fn moves(working: Seq<Seq<char>>, target: Seq<Seq<char>>, i: nat) -> Seq<
    PlayerCommandView,
>
    decreases working.len() - i,
{
    if i >= working.len() {
        Seq::empty()
    } else {
        let j = place_from(working, i as int, target[i as int]);
        if i < j < working.len() {
            seq![PlayerCommandView::Move { from: j as i64, to: i as i64 }] + moves(
                player_move(working, j, i as int),
                target,
                i + 1,
            )
        } else {
            moves(working, target, i + 1)
        }
    }
}

/// The first place from `from` on of an entry that plays; the length where none does.
pub open spec fn current_from(playlist: Seq<PlaylistEntryView>, from: int) -> int
    decreases playlist.len() - from,
{
    if from >= playlist.len() || playlist[from].current {
        from
    } else {
        current_from(playlist, from + 1)
    }
}

/// The addresses of a queue.
pub open spec fn urls(playlist: Seq<PlaylistEntryView>) -> Seq<Seq<char>> {
    playlist.map_values(|e: PlaylistEntryView| e.url)
}

/// A list with the item at `ci` first, and the others behind it in a shuffled order.
pub open spec fn first_then_shuffled<T>(s: Seq<T>, ci: int, clock: Option<u64>) -> Seq<T> {
    seq![s[ci]] + shuffled(s.remove(ci), clock)
}

/// The move that puts the entry at `ci` first, where it is not first already.
pub open spec fn lead(ci: int) -> Seq<PlayerCommandView> {
    if ci > 0 {
        seq![PlayerCommandView::Move { from: ci as i64, to: 0 }]
    } else {
        Seq::empty()
    }
}

/// The commands that shuffle a queue. With fewer than two entries there is nothing to do.
/// Where nothing plays, the player shuffles. Else the entry that plays is moved to the
/// front, and moves bring the others behind it into a shuffled order.
pub open spec fn plan(playlist: Seq<PlaylistEntryView>, clock: Option<u64>) -> Seq<
    PlayerCommandView,
> {
    let ci = current_from(playlist, 0);
    if playlist.len() < 2 {
        Seq::empty()
    } else if ci >= playlist.len() {
        seq![PlayerCommandView::Shuffle]
    } else {
        lead(ci) + moves(
            player_move(urls(playlist), ci, 0),
            first_then_shuffled(urls(playlist), ci, clock),
            1,
        )
    }
}

/// The first place from `from` on that holds `x`.
fn find_text(s: &Vec<String>, from: usize, x: &str) -> (r: usize)
    requires
        from <= s@.len(),
    ensures
        r == place_from(text::texts(s@), from as int, x@),
        from <= r <= s@.len(),
{
    let mut i: usize = from;
    while i < s.len() && !text::same(s[i].as_str(), x)
        invariant
            from <= i <= s@.len(),
            place_from(text::texts(s@), from as int, x@) == place_from(
                text::texts(s@),
                i as int,
                x@,
            ),
        decreases s.len() - i,
    {
        assert(text::texts(s@)[i as int] == s@[i as int]@);
        i = i + 1;
    }
    assert(i < s@.len() ==> text::texts(s@)[i as int] == s@[i as int]@);
    i
}

/// The moves that put the entry at `ci` first, and bring the others behind it into the
/// order of `target`.
fn plan_moves(queue: Vec<String>, ci: usize, target: &Vec<String>) -> (r: Vec<PlayerCommand>)
    requires
        ci < queue@.len() == target@.len(),
    ensures
        lists::views(r@) == lead(ci as int) + moves(
            player_move(text::texts(queue@), ci as int, 0),
            text::texts(target@),
            1,
        ),
{
    let ghost start = player_move(text::texts(queue@), ci as int, 0);
    let ghost wanted = lead(ci as int) + moves(start, text::texts(target@), 1);
    let n: usize = queue.len();
    let mut working = queue;
    let mut r: Vec<PlayerCommand> = Vec::new();
    if ci > 0 {
        let item = working.remove(ci);
        working.insert(0, item);
        r.push(PlayerCommand::Move { from: ci as i64, to: 0 });
    }
    assert(lists::views(r@) =~= lead(ci as int));
    assert(text::texts(working@) =~= start);
    for i in 1..n
        invariant
            working@.len() == n,
            target@.len() == n,
            lists::views(r@) + moves(text::texts(working@), text::texts(target@), i as nat)
                == wanted,
    {
        let ghost before = lists::views(r@);
        let ghost was = text::texts(working@);
        let ghost aim = text::texts(target@);
        assert(aim[i as int] == target@[i as int]@);
        let j = find_text(&working, i, target[i].as_str());
        if j != i && j < n {
            let item = working.remove(j);
            working.insert(i, item);
            assert(text::texts(working@) =~= player_move(was, j as int, i as int));
            let command = PlayerCommand::Move { from: j as i64, to: i as i64 };
            r.push(command);
            assert(lists::views(r@) =~= before.push(command@));
            let ghost rest = moves(text::texts(working@), aim, (i + 1) as nat);
            assert(before.push(command@) + rest =~= before + (seq![command@] + rest));
        }
    }
    assert(lists::views(r@) + Seq::<PlayerCommandView>::empty() =~= lists::views(r@));
    r
}

/// The commands that shuffle a queue.
pub fn plan_shuffle(playlist: &Vec<PlaylistEntry>, clock: Option<u64>) -> (r: Vec<PlayerCommand>)
    ensures
        lists::views(r@) == plan(lists::views(playlist@), clock),
{
    let ghost all = lists::views(playlist@);
    let n: usize = playlist.len();
    if n < 2 {
        let r: Vec<PlayerCommand> = Vec::new();
        assert(lists::views(r@) =~= plan(all, clock));
        return r;
    }
    let mut ci: usize = 0;
    while ci < n && !playlist[ci].current
        invariant
            n == playlist@.len(),
            all == lists::views(playlist@),
            ci <= n,
            current_from(all, 0) == current_from(all, ci as int),
        decreases n - ci,
    {
        assert(all[ci as int] == playlist@[ci as int]@);
        ci = ci + 1;
    }
    assert(ci < n ==> all[ci as int] == playlist@[ci as int]@);
    if ci >= n {
        let r = vec![PlayerCommand::Shuffle];
        assert(lists::views(r@) =~= plan(all, clock));
        return r;
    }
    let mut queue: Vec<String> = Vec::new();
    let mut others: Vec<String> = Vec::new();
    for i in 0..n
        invariant
            n == playlist@.len(),
            ci < n,
            all == lists::views(playlist@),
            text::texts(queue@) =~= urls(all).take(i as int),
            i <= ci ==> text::texts(others@) =~= urls(all).take(i as int),
            i > ci ==> text::texts(others@) =~= urls(all).take(i as int).remove(ci as int),
    {
        let ghost url = playlist@[i as int].url@;
        let ghost in_queue = text::texts(queue@);
        let ghost in_others = text::texts(others@);
        assert(all[i as int] == playlist@[i as int]@);
        assert(urls(all).take(i + 1) =~= urls(all).take(i as int).push(url));
        queue.push(playlist[i].url.clone());
        assert(text::texts(queue@) =~= in_queue.push(url));
        if i != ci {
            others.push(playlist[i].url.clone());
            assert(text::texts(others@) =~= in_others.push(url));
        }
    }
    assert(urls(all).take(n as int) =~= urls(all));
    let ghost unshuffled = others@;
    shuffle_in_place(others.as_mut_slice(), clock);
    proof {
        lemma_shuffled_maps(unshuffled, |s: String| s@, clock);
        lemma_shuffled_len(unshuffled, clock);
    }
    let mut target: Vec<String> = vec![playlist[ci].url.clone()];
    target.append(&mut others);
    assert(text::texts(target@) =~= first_then_shuffled(urls(all), ci as int, clock));
    plan_moves(queue, ci, &target)
}

// ---------------------------------------------------------------------------
// Laws
// ---------------------------------------------------------------------------

proof fn lemma_shuffled_down_len<T>(v: Seq<T>, i: nat, state: u64)
    requires
        i < v.len(),
    ensures
        shuffled_down(v, i, state).len() == v.len(),
    decreases i,
{
    if i > 0 {
        let s = next_state(state);
        lemma_shuffled_down_len(lists::swapped(v, i as int, pick(s, i)), (i - 1) as nat, s);
    }
}

proof fn lemma_shuffled_len<T>(v: Seq<T>, clock: Option<u64>)
    ensures
        shuffled(v, clock).len() == v.len(),
{
    if v.len() > 0 {
        lemma_shuffled_down_len(v, (v.len() - 1) as nat, seed(clock));
    }
}

proof fn lemma_shuffled_down_maps<T, U>(v: Seq<T>, f: spec_fn(T) -> U, i: nat, state: u64)
    requires
        i < v.len(),
    ensures
        shuffled_down(v, i, state).map_values(f) == shuffled_down(v.map_values(f), i, state),
    decreases i,
{
    if i > 0 {
        let s = next_state(state);
        let j = pick(s, i);
        lemma_shuffled_down_maps(lists::swapped(v, i as int, j), f, (i - 1) as nat, s);
        assert(lists::swapped(v, i as int, j).map_values(f) =~= lists::swapped(
            v.map_values(f),
            i as int,
            j,
        ));
    }
}

proof fn lemma_shuffled_maps<T, U>(v: Seq<T>, f: spec_fn(T) -> U, clock: Option<u64>)
    ensures
        shuffled(v, clock).map_values(f) == shuffled(v.map_values(f), clock),
{
    if v.len() > 0 {
        lemma_shuffled_down_maps(v, f, (v.len() - 1) as nat, seed(clock));
    } else {
        assert(v.map_values(f) =~= shuffled(v.map_values(f), clock));
    }
}

proof fn lemma_shuffled_down_permutes<T>(v: Seq<T>, i: nat, state: u64)
    requires
        i < v.len(),
    ensures
        shuffled_down(v, i, state).to_multiset() == v.to_multiset(),
    decreases i,
{
    broadcast use vstd::seq_lib::group_to_multiset_ensures;

    if i > 0 {
        let s = next_state(state);
        let j = pick(s, i);
        let w = v.update(i as int, v[j]);
        let swapped = lists::swapped(v, i as int, j);
        lemma_shuffled_down_permutes(swapped, (i - 1) as nat, s);
        vstd::seq_lib::to_multiset_update(v, i as int, v[j]);
        vstd::seq_lib::to_multiset_update(w, j, v[i as int]);
        assert(w[j] == v[j]);
        assert(swapped.to_multiset() =~= v.to_multiset());
    }
}

/// A shuffle loses no item and adds none.
pub proof fn shuffle_permutes<T>(v: Seq<T>, clock: Option<u64>)
    ensures
        shuffled(v, clock).to_multiset() == v.to_multiset(),
        shuffled(v, clock).len() == v.len(),
{
    lemma_shuffled_len(v, clock);
    if v.len() > 0 {
        lemma_shuffled_down_permutes(v, (v.len() - 1) as nat, seed(clock));
    }
}

proof fn lemma_place_from(s: Seq<Seq<char>>, from: int, x: Seq<char>)
    requires
        0 <= from <= s.len(),
    ensures
        from <= place_from(s, from, x) <= s.len(),
        place_from(s, from, x) < s.len() ==> s[place_from(s, from, x)] == x,
        forall|k: int| from <= k < place_from(s, from, x) ==> s[k] != x,
    decreases s.len() - from,
{
    if from < s.len() && s[from] != x {
        lemma_place_from(s, from + 1, x);
    }
}

proof fn lemma_present(working: Seq<Seq<char>>, target: Seq<Seq<char>>, i: int)
    requires
        0 <= i < target.len(),
        working.len() == target.len(),
        working.take(i) == target.take(i),
        working.to_multiset() == target.to_multiset(),
    ensures
        i <= place_from(working, i, target[i]) < working.len(),
        working[place_from(working, i, target[i])] == target[i],
        forall|k: int| i <= k < place_from(working, i, target[i]) ==> working[k] != target[i],
{
    broadcast use vstd::seq_lib::group_to_multiset_ensures;

    let a = working.skip(i);
    let b = target.skip(i);
    vstd::seq_lib::lemma_multiset_commutative(working.take(i), a);
    vstd::seq_lib::lemma_multiset_commutative(target.take(i), b);
    assert(working.take(i) + a =~= working);
    assert(target.take(i) + b =~= target);
    assert(a.to_multiset() =~= b.to_multiset()) by {
        let front = target.take(i).to_multiset();
        assert forall|x: Seq<char>| a.to_multiset().count(x) == b.to_multiset().count(x) by {
            assert(front.add(a.to_multiset()).count(x) == front.add(b.to_multiset()).count(x));
        }
    }
    assert(b[0] == target[i]);
    assert(b.contains(target[i]));
    assert(a.to_multiset().count(target[i]) > 0);
    assert(a.contains(target[i]));
    let k = choose|k: int| 0 <= k < a.len() && a[k] == target[i];
    assert(working[i + k] == target[i]);
    lemma_place_from(working, i, target[i]);
}

proof fn lemma_moves<T>(
    queue: Seq<T>,
    f: spec_fn(T) -> Seq<char>,
    target: Seq<Seq<char>>,
    i: nat,
)
    requires
        i <= queue.len() == target.len() <= i64::MAX,
        queue.map_values(f).take(i as int) == target.take(i as int),
        queue.map_values(f).to_multiset() == target.to_multiset(),
    ensures
        after_moves(queue, moves(queue.map_values(f), target, i)).map_values(f) == target,
        after_moves(queue, moves(queue.map_values(f), target, i)).to_multiset()
            == queue.to_multiset(),
        after_moves(queue, moves(queue.map_values(f), target, i)).take(i as int) == queue.take(
            i as int,
        ),
    decreases queue.len() - i,
{
    let working = queue.map_values(f);
    if i >= queue.len() {
        assert(working =~= working.take(i as int));
        assert(target =~= target.take(i as int));
        assert(after_moves(queue, moves(working, target, i)) == queue);
    } else {
        let x = target[i as int];
        let j = place_from(working, i as int, x);
        lemma_present(working, target, i as int);
        let next = player_move(queue, j, i as int);
        let rest = moves(player_move(working, j, i as int), target, i + 1);
        assert(next.map_values(f) =~= player_move(working, j, i as int));
        if i < j {
            let m = PlayerCommandView::Move { from: j as i64, to: i as i64 };
            assert(moves(working, target, i) == seq![m] + rest);
            assert((seq![m] + rest).skip(1) =~= rest);
            assert(after_moves(queue, moves(working, target, i)) == after_moves(next, rest));
            assert(next.map_values(f).take(i as int + 1) =~= target.take(i as int + 1)) by {
                assert forall|k: int| 0 <= k < i implies working[k] == target[k] by {
                    assert(working.take(i as int)[k] == target.take(i as int)[k]);
                }
            }
            lemma_move_permutes(queue, j, i as int);
            lemma_move_permutes(working, j, i as int);
            lemma_moves(next, f, target, i + 1);
            let r = after_moves(next, rest);
            assert(r.take(i as int) =~= r.take(i as int + 1).take(i as int));
            assert(next.take(i as int + 1).take(i as int) =~= queue.take(i as int));
        } else {
            assert(working.take(i as int + 1) =~= target.take(i as int + 1)) by {
                assert forall|k: int| 0 <= k < i implies working[k] == target[k] by {
                    assert(working.take(i as int)[k] == target.take(i as int)[k]);
                }
            }
            lemma_moves(queue, f, target, i + 1);
            let r = after_moves(queue, moves(working, target, i + 1));
            assert(r.take(i as int) =~= r.take(i as int + 1).take(i as int));
            assert(queue.take(i as int + 1).take(i as int) =~= queue.take(i as int));
        }
    }
}

proof fn lemma_move_permutes<T>(queue: Seq<T>, from: int, to: int)
    requires
        0 <= to < from < queue.len(),
    ensures
        player_move(queue, from, to).to_multiset() == queue.to_multiset(),
        player_move(queue, from, to).len() == queue.len(),
{
    broadcast use vstd::seq_lib::group_to_multiset_ensures;

    vstd::seq_lib::to_multiset_remove(queue, from);
    vstd::seq_lib::to_multiset_insert(queue.remove(from), to, queue[from]);
    assert(queue.to_multiset().count(queue[from]) > 0);
    assert(player_move(queue, from, to).to_multiset() =~= queue.to_multiset());
}

proof fn lemma_current_from(playlist: Seq<PlaylistEntryView>, from: int)
    requires
        0 <= from <= playlist.len(),
    ensures
        from <= current_from(playlist, from) <= playlist.len(),
    decreases playlist.len() - from,
{
    if from < playlist.len() && !playlist[from].current {
        lemma_current_from(playlist, from + 1);
    }
}

proof fn lemma_target_permutes(all: Seq<Seq<char>>, ci: int, clock: Option<u64>)
    requires
        0 <= ci < all.len(),
    ensures
        first_then_shuffled(all, ci, clock).to_multiset() == all.to_multiset(),
        first_then_shuffled(all, ci, clock).len() == all.len(),
        first_then_shuffled(all, ci, clock)[0] == all[ci],
{
    broadcast use vstd::seq_lib::group_to_multiset_ensures;

    let target = first_then_shuffled(all, ci, clock);
    let others = shuffled(all.remove(ci), clock);
    shuffle_permutes(all.remove(ci), clock);
    vstd::seq_lib::lemma_multiset_commutative(seq![all[ci]], others);
    vstd::seq_lib::to_multiset_remove(all, ci);
    assert(all.contains(all[ci]));
    assert(seq![all[ci]] =~= Seq::<Seq<char>>::empty().push(all[ci]));
    vstd::seq_lib::to_multiset_build(Seq::<Seq<char>>::empty(), all[ci]);
    assert(target.to_multiset() =~= all.to_multiset());
}

/// Where a track plays, the commands of a shuffle leave every entry in the queue, put the
/// entry that plays first, and bring the addresses of the others into a shuffled order.
pub proof fn shuffle_keeps_the_current_first(playlist: Seq<PlaylistEntryView>, clock: Option<u64>)
    requires
        current_from(playlist, 0) < playlist.len() <= i64::MAX,
    ensures
        ({
            let ci = current_from(playlist, 0);
            let after = after_moves(playlist, plan(playlist, clock));
            &&& after[0] == playlist[ci]
            &&& urls(after) == first_then_shuffled(urls(playlist), ci, clock)
            &&& after.to_multiset() == playlist.to_multiset()
        }),
{
    let ci = current_from(playlist, 0);
    lemma_current_from(playlist, 0);
    let f = |e: PlaylistEntryView| e.url;
    let all = urls(playlist);
    let target = first_then_shuffled(all, ci, clock);
    lemma_target_permutes(all, ci, clock);
    if playlist.len() < 2 {
        assert(after_moves(playlist, plan(playlist, clock)) == playlist);
        assert(target =~= all);
    } else {
        let next = player_move(playlist, ci, 0);
        let rest = moves(player_move(all, ci, 0), target, 1);
        assert(next.map_values(f) =~= player_move(all, ci, 0));
        if ci > 0 {
            lemma_move_permutes(playlist, ci, 0);
            lemma_move_permutes(all, ci, 0);
            assert((lead(ci) + rest).skip(1) =~= rest);
        } else {
            assert(next =~= playlist);
            assert(player_move(all, ci, 0) =~= all);
            assert(lead(ci) + rest =~= rest);
        }
        assert(after_moves(playlist, plan(playlist, clock)) == after_moves(next, rest));
        assert(next.map_values(f).take(1) =~= target.take(1));
        lemma_moves(next, f, target, 1);
        let after = after_moves(next, rest);
        assert(after.map_values(f).len() == after.len());
        assert(urls(after) =~= after.map_values(f));
        assert(after.take(1)[0] == next.take(1)[0]);
        assert(after[0] == after.take(1)[0]);
        assert(next[0] == playlist[ci]);
    }
}

} // verus!
