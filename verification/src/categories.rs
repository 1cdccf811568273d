//! The actions on offer, sorted into categories.

use crate::manifest;
use crate::manifest::{Action, ActionView};
use crate::registry::Registry;
use crate::text;
use vstd::prelude::*;

verus! {

/// A group of actions.
pub struct Category<D> {
    pub icon: Option<String>,
    pub actions: Vec<Action<D>>,
}

#[verifier::ext_equal]
pub struct CategoryView<D> {
    pub icon: Option<Seq<char>>,
    pub actions: Seq<ActionView<D>>,
}

impl<D> View for Category<D> {
    type V = CategoryView<D>;

    open spec fn view(&self) -> CategoryView<D> {
        CategoryView {
            icon: text::optional_text(self.icon),
            actions: manifest::action_views(self.actions@),
        }
    }
}

/// The categories of a registry, as values.
pub open spec fn category_views<D>(
    categories: Map<Seq<char>, Category<D>>,
) -> Map<Seq<char>, CategoryView<D>> {
    categories.map_values(|category: Category<D>| category@)
}

/// The identifiers of a list of actions.
pub open spec fn uuids<D>(actions: Seq<ActionView<D>>) -> Seq<Seq<char>> {
    actions.map_values(|action: ActionView<D>| action.uuid)
}

/// `actions` with `action` last, in the place of the first one that has its
/// identifier.
pub open spec fn with_action<D>(
    actions: Seq<ActionView<D>>,
    action: ActionView<D>,
) -> Seq<ActionView<D>> {
    match uuids(actions).index_of_first(action.uuid) {
        Some(at) => actions.remove(at).push(action),
        None => actions.push(action),
    }
}

/// `actions` after each of `added` has been put in, one after the other.
pub open spec fn with_actions<D>(
    actions: Seq<ActionView<D>>,
    added: Seq<ActionView<D>>,
) -> Seq<ActionView<D>>
    decreases added.len(),
{
    if added.len() == 0 {
        actions
    } else {
        with_action(with_actions(actions, added.drop_last()), added.last())
    }
}

/// The categories after a plugin has offered `actions` under `name`. A category
/// that is there already keeps its icon; a new one is made only for at least one
/// action.
pub open spec fn with_offer<D>(
    categories: Map<Seq<char>, CategoryView<D>>,
    name: Seq<char>,
    icon: Option<Seq<char>>,
    actions: Seq<ActionView<D>>,
) -> Map<Seq<char>, CategoryView<D>> {
    if categories.contains_key(name) {
        categories.insert(
            name,
            CategoryView {
                icon: categories[name].icon,
                actions: with_actions(categories[name].actions, actions),
            },
        )
    } else if actions.len() > 0 {
        categories.insert(name, CategoryView { icon, actions })
    } else {
        categories
    }
}

/// The position of the first action with the identifier `uuid`.
fn position_of<D>(actions: &Vec<Action<D>>, uuid: &str) -> (result: Option<usize>)
    ensures
        match result {
            Some(at) => uuids(manifest::action_views(actions@)).index_of_first(uuid@) == Some(
                at as int,
            ) && at < actions@.len(),
            None => uuids(manifest::action_views(actions@)).index_of_first(uuid@) is None,
        },
{
    let ghost all = uuids(manifest::action_views(actions@));
    proof {
        all.index_of_first_ensures(uuid@);
    }
    let mut i: usize = 0;
    while i < actions.len()
        invariant
            i <= actions.len(),
            all == uuids(manifest::action_views(actions@)),
            forall|j: int| 0 <= j < i ==> all[j] != uuid@,
            match all.index_of_first(uuid@) {
                Some(index) => {
                    &&& 0 <= index < all.len()
                    &&& all[index] == uuid@
                    &&& forall|j: int| 0 <= j < index < all.len() ==> all[j] != uuid@
                },
                None => !all.contains(uuid@),
            },
        decreases actions.len() - i,
    {
        assert(all[i as int] == actions@[i as int].uuid@);
        if text::same_text(actions[i].uuid.as_str(), uuid) {
            assert(all.contains(uuid@));
            return Some(i);
        }
        i += 1;
    }
    None
}

impl<D> Category<D> {
    /// Puts `action` last, in the place of the first one that has its
    /// identifier.
    pub fn put(self, action: Action<D>) -> (result: Category<D>)
        ensures
            result@ == (CategoryView {
                icon: self@.icon,
                actions: with_action(self@.actions, action@),
            }),
    {
        let ghost before = self@.actions;
        let ghost added = action@;
        proof {
            uuids(before).index_of_first_ensures(added.uuid);
        }
        let Category { icon, mut actions } = self;
        if let Some(at) = position_of(&actions, action.uuid.as_str()) {
            let _ = actions.remove(at);
            assert(manifest::action_views(actions@) =~= before.remove(at as int));
        }
        let ghost kept = manifest::action_views(actions@);
        actions.push(action);
        assert(manifest::action_views(actions@) =~= kept.push(added));
        Category { icon, actions }
    }
}

/// Adds the actions that a plugin offers under the category `name`.
pub fn offer_actions<D>(
    categories: &mut Registry<Category<D>>,
    name: String,
    icon: Option<String>,
    actions: Vec<Action<D>>,
)
    ensures
        category_views(final(categories)@) == with_offer(
            category_views(old(categories)@),
            name@,
            text::optional_text(icon),
            manifest::action_views(actions@),
        ),
{
    let ghost before = category_views(categories@);
    let ghost offered = manifest::action_views(actions@);
    match categories.remove(name.as_str()) {
        Some(category) => {
            let ghost first = category@;
            let mut category = category;
            for action in iter: actions
                invariant
                    iter.seq() == actions@,
                    offered == manifest::action_views(actions@),
                    category@ == (CategoryView {
                        icon: first.icon,
                        actions: with_actions(first.actions, offered.take(iter.index() as int)),
                    }),
            {
                let ghost next = offered.take(iter.index() + 1);
                assert(next.drop_last() =~= offered.take(iter.index() as int));
                assert(next.last() == action@);
                category = category.put(action);
            }
            assert(offered.take(offered.len() as int) =~= offered);
            let _ = categories.insert(name, category);
        },
        None => {
            if actions.len() > 0 {
                let _ = categories.insert(name, Category { icon, actions });
            }
        },
    }
    assert(category_views(categories@) =~= with_offer(
        before,
        name@,
        text::optional_text(icon),
        offered,
    ));
}

/// Whether an action has none of the identifiers of `added`.
pub open spec fn not_among<D>(added: Seq<ActionView<D>>) -> spec_fn(ActionView<D>) -> bool {
    |action: ActionView<D>| !uuids(added).contains(action.uuid)
}

/// Leaving out an element that a filter drops does not change what it keeps.
proof fn lemma_filter_without<A>(s: Seq<A>, at: int, keep: spec_fn(A) -> bool)
    requires
        0 <= at < s.len(),
        !keep(s[at]),
    ensures
        s.remove(at).filter(keep) == s.filter(keep),
{
    reveal(Seq::filter);
    let head = s.take(at);
    let tail = s.skip(at + 1);
    assert(s =~= head.push(s[at]) + tail);
    assert(s.remove(at) =~= head + tail);
    assert(head.push(s[at]).drop_last() =~= head);
    Seq::filter_distributes_over_add(head.push(s[at]), tail, keep);
    Seq::filter_distributes_over_add(head, tail, keep);
}

/// A filter that keeps every element keeps the list.
proof fn lemma_filter_all<A>(s: Seq<A>, keep: spec_fn(A) -> bool)
    requires
        forall|i: int| 0 <= i < s.len() ==> keep(#[trigger] s[i]),
    ensures
        s.filter(keep) == s,
    decreases s.len(),
{
    reveal(Seq::filter);
    if s.len() > 0 {
        assert forall|i: int| 0 <= i < s.drop_last().len() implies keep(
            #[trigger] s.drop_last()[i],
        ) by {
            assert(keep(s[i]));
        }
        lemma_filter_all(s.drop_last(), keep);
        assert(keep(s[s.len() - 1]));
        assert(s.drop_last().push(s.last()) =~= s);
    }
}

/// A filter that keeps no element leaves nothing.
proof fn lemma_filter_none<A>(s: Seq<A>, keep: spec_fn(A) -> bool)
    requires
        forall|i: int| 0 <= i < s.len() ==> !keep(#[trigger] s[i]),
    ensures
        s.filter(keep) == Seq::<A>::empty(),
    decreases s.len(),
{
    reveal(Seq::filter);
    if s.len() > 0 {
        assert forall|i: int| 0 <= i < s.drop_last().len() implies !keep(
            #[trigger] s.drop_last()[i],
        ) by {
            assert(!keep(s[i]));
        }
        lemma_filter_none(s.drop_last(), keep);
        assert(!keep(s[s.len() - 1]));
    }
}

/// Putting in an action that a filter drops does not change what it keeps, if
/// the filter goes by the identifier.
proof fn lemma_put_keeps_others<D>(
    actions: Seq<ActionView<D>>,
    action: ActionView<D>,
    keep: spec_fn(ActionView<D>) -> bool,
)
    requires
        forall|other: ActionView<D>| other.uuid == action.uuid ==> !#[trigger] keep(other),
    ensures
        with_action(actions, action).filter(keep) == actions.filter(keep),
{
    reveal(Seq::filter);
    uuids(actions).index_of_first_ensures(action.uuid);
    match uuids(actions).index_of_first(action.uuid) {
        Some(at) => {
            assert(uuids(actions)[at] == actions[at].uuid);
            lemma_filter_without(actions, at, keep);
            assert(actions.remove(at).push(action).drop_last() =~= actions.remove(at));
        },
        None => {
            assert(actions.push(action).drop_last() =~= actions);
        },
    }
}

proof fn lemma_offer_keeps_others<D>(
    actions: Seq<ActionView<D>>,
    added: Seq<ActionView<D>>,
    keep: spec_fn(ActionView<D>) -> bool,
)
    requires
        forall|other: ActionView<D>| uuids(added).contains(other.uuid) ==> !#[trigger] keep(other),
    ensures
        with_actions(actions, added).filter(keep) == actions.filter(keep),
    decreases added.len(),
{
    if added.len() > 0 {
        let first = added.drop_last();
        assert forall|other: ActionView<D>| uuids(first).contains(other.uuid) implies !#[trigger] keep(
            other,
        ) by {
            let i = choose|i: int| 0 <= i < uuids(first).len() && uuids(first)[i] == other.uuid;
            assert(uuids(added)[i] == other.uuid);
        }
        lemma_offer_keeps_others(actions, first, keep);
        assert(uuids(added)[added.len() - 1] == added.last().uuid);
        lemma_put_keeps_others(with_actions(actions, first), added.last(), keep);
    }
}

/// An offer leaves the actions with other identifiers as they are, in their
/// order.
pub proof fn law_offer_leaves_other_actions<D>(
    actions: Seq<ActionView<D>>,
    added: Seq<ActionView<D>>,
)
    ensures
        with_actions(actions, added).filter(not_among(added)) == actions.filter(not_among(added)),
{
    lemma_offer_keeps_others(actions, added, not_among(added));
}

/// Where no two actions share an identifier, none do after an offer.
pub proof fn law_offer_keeps_identifiers_distinct<D>(
    actions: Seq<ActionView<D>>,
    added: Seq<ActionView<D>>,
)
    requires
        uuids(actions).no_duplicates(),
    ensures
        uuids(with_actions(actions, added)).no_duplicates(),
    decreases added.len(),
{
    if added.len() > 0 {
        let before = with_actions(actions, added.drop_last());
        let action = added.last();
        law_offer_keeps_identifiers_distinct(actions, added.drop_last());
        uuids(before).index_of_first_ensures(action.uuid);
        let after = uuids(with_action(before, action));
        match uuids(before).index_of_first(action.uuid) {
            Some(at) => {
                assert(after =~= uuids(before).remove(at).push(action.uuid));
                assert forall|i: int| 0 <= i < before.len() - 1 implies uuids(before).remove(at)[i]
                    != action.uuid by {
                    assert(uuids(before)[at] == action.uuid);
                }
            },
            None => {
                assert(after =~= uuids(before).push(action.uuid));
                assert forall|i: int| 0 <= i < before.len() implies uuids(before)[i]
                    != action.uuid by {
                    assert(uuids(before).contains(uuids(before)[i]));
                }
            },
        }
    }
}

/// Putting in one action, where no two actions share an identifier, takes out
/// all others with its identifier.
proof fn lemma_put_distinct<D>(actions: Seq<ActionView<D>>, action: ActionView<D>)
    requires
        uuids(actions).no_duplicates(),
    ensures
        with_action(actions, action) == actions.filter(
            |other: ActionView<D>| other.uuid != action.uuid,
        ).push(action),
{
    let keep = |other: ActionView<D>| other.uuid != action.uuid;
    uuids(actions).index_of_first_ensures(action.uuid);
    match uuids(actions).index_of_first(action.uuid) {
        Some(at) => {
            assert(uuids(actions)[at] == actions[at].uuid);
            lemma_filter_without(actions, at, keep);
            let rest = actions.remove(at);
            assert forall|i: int| 0 <= i < rest.len() implies keep(#[trigger] rest[i]) by {
                let j = if i < at { i } else { i + 1 };
                assert(uuids(actions)[j] == rest[i].uuid);
                assert(uuids(actions)[j] != uuids(actions)[at]);
            }
            lemma_filter_all(rest, keep);
        },
        None => {
            assert forall|i: int| 0 <= i < actions.len() implies keep(#[trigger] actions[i]) by {
                assert(uuids(actions).contains(uuids(actions)[i]));
            }
            lemma_filter_all(actions, keep);
        },
    }
}

/// Two filters, one after the other, keep what both keep.
proof fn lemma_filter_twice<A>(
    s: Seq<A>,
    first: spec_fn(A) -> bool,
    second: spec_fn(A) -> bool,
    both: spec_fn(A) -> bool,
)
    requires
        forall|a: A| #[trigger] both(a) == (first(a) && second(a)),
    ensures
        s.filter(first).filter(second) == s.filter(both),
    decreases s.len(),
{
    reveal(Seq::filter);
    if s.len() > 0 {
        lemma_filter_twice(s.drop_last(), first, second, both);
        assert(both(s.last()) == (first(s.last()) && second(s.last())));
        let kept = s.drop_last().filter(first);
        assert(kept.push(s.last()).drop_last() =~= kept);
    }
}

/// Where no two actions share an identifier, and no two of the offer do, the
/// offer comes last, in its order, after all actions with other identifiers.
pub proof fn law_offer_replaces_its_own_actions<D>(
    actions: Seq<ActionView<D>>,
    added: Seq<ActionView<D>>,
)
    requires
        uuids(actions).no_duplicates(),
        uuids(added).no_duplicates(),
    ensures
        with_actions(actions, added) == actions.filter(not_among(added)) + added,
    decreases added.len(),
{
    if added.len() == 0 {
        assert forall|i: int| 0 <= i < actions.len() implies not_among(added)(
            #[trigger] actions[i],
        ) by {
            assert(uuids(added) =~= Seq::<Seq<char>>::empty());
        }
        lemma_filter_all(actions, not_among(added));
        assert(actions + added =~= actions);
    } else {
        let first = added.drop_last();
        let last = added.last();
        let keep = |other: ActionView<D>| other.uuid != last.uuid;
        assert(uuids(first) =~= uuids(added).drop_last());
        assert(uuids(first).no_duplicates());
        law_offer_replaces_its_own_actions(actions, first);
        law_offer_keeps_identifiers_distinct(actions, first);
        lemma_put_distinct(with_actions(actions, first), last);
        Seq::filter_distributes_over_add(actions.filter(not_among(first)), first, keep);
        assert forall|i: int| 0 <= i < first.len() implies keep(#[trigger] first[i]) by {
            assert(uuids(added)[i] != uuids(added)[added.len() - 1]);
        }
        lemma_filter_all(first, keep);
        assert forall|a: ActionView<D>| #[trigger]
            not_among(added)(a) == (not_among(first)(a) && keep(a)) by {
            assert(uuids(added) =~= uuids(first).push(last.uuid));
            if uuids(added).contains(a.uuid) && a.uuid != last.uuid {
                let i = choose|i: int| 0 <= i < uuids(added).len() && uuids(added)[i] == a.uuid;
                assert(uuids(first)[i] == a.uuid);
            }
            if uuids(first).contains(a.uuid) {
                let i = choose|i: int| 0 <= i < uuids(first).len() && uuids(first)[i] == a.uuid;
                assert(uuids(added)[i] == a.uuid);
            }
            if a.uuid == last.uuid {
                assert(uuids(added)[added.len() - 1] == a.uuid);
            }
        }
        lemma_filter_twice(actions, not_among(first), keep, not_among(added));
        assert(actions.filter(not_among(added)) + first.push(last) =~= (actions.filter(
            not_among(added),
        ) + first).push(last));
        assert(first.push(last) =~= added);
    }
}

/// Where no two actions share an identifier, offering the same actions a second
/// time changes nothing.
pub proof fn law_offering_again_changes_nothing<D>(
    categories: Map<Seq<char>, CategoryView<D>>,
    name: Seq<char>,
    icon: Option<Seq<char>>,
    actions: Seq<ActionView<D>>,
)
    requires
        uuids(actions).no_duplicates(),
        categories.contains_key(name) ==> uuids(categories[name].actions).no_duplicates(),
    ensures
        with_offer(with_offer(categories, name, icon, actions), name, icon, actions) == with_offer(
            categories,
            name,
            icon,
            actions,
        ),
{
    let once = with_offer(categories, name, icon, actions);
    let keep = not_among(actions);
    assert forall|i: int| 0 <= i < actions.len() implies !keep(#[trigger] actions[i]) by {
        assert(uuids(actions)[i] == actions[i].uuid);
    }
    lemma_filter_none(actions, keep);
    if categories.contains_key(name) {
        let present = categories[name].actions;
        let merged = with_actions(present, actions);
        law_offer_keeps_identifiers_distinct(present, actions);
        law_offer_replaces_its_own_actions(present, actions);
        law_offer_replaces_its_own_actions(merged, actions);
        law_offer_leaves_other_actions(present, actions);
        assert(with_actions(merged, actions) == merged);
        assert(with_offer(once, name, icon, actions) =~= once);
    } else if actions.len() > 0 {
        law_offer_replaces_its_own_actions(actions, actions);
        assert(Seq::<ActionView<D>>::empty() + actions =~= actions);
        assert(with_offer(once, name, icon, actions) =~= once);
    }
}

/// A category shows its icon and its actions in their order, and the categories of
/// a registry show each under its name.
pub proof fn law_categories_are_shown<D>(
    category: Category<D>,
    categories: Map<Seq<char>, Category<D>>,
    name: Seq<char>,
)
    ensures
        category@.icon is Some <==> category.icon is Some,
        category.icon is Some ==> category@.icon->0 == category.icon->0@,
        category@.actions.len() == category.actions@.len(),
        forall|i: int|
            0 <= i < category.actions@.len() ==> #[trigger] category@.actions[i]
                == category.actions@[i]@,
        uuids(category@.actions).len() == category.actions@.len(),
        forall|i: int|
            0 <= i < category.actions@.len() ==> #[trigger] uuids(category@.actions)[i]
                == category.actions@[i].uuid@,
        category_views(categories).contains_key(name) <==> categories.contains_key(name),
        categories.contains_key(name) ==> category_views(categories)[name] == categories[name]@,
{
}

/// An offer leaves the categories with other names as they are, and adds none of
/// another name.
pub proof fn law_offer_leaves_other_categories<D>(
    categories: Map<Seq<char>, CategoryView<D>>,
    name: Seq<char>,
    icon: Option<Seq<char>>,
    actions: Seq<ActionView<D>>,
    other: Seq<char>,
)
    requires
        other != name,
    ensures
        with_offer(categories, name, icon, actions).contains_key(other) <==> categories.contains_key(
            other,
        ),
        categories.contains_key(other) ==> with_offer(categories, name, icon, actions)[other]
            == categories[other],
{
}

/// An offer under a new name makes a category with the offered icon that holds the
/// offered actions and no others. An offer under a name that is taken keeps the
/// icon that is there. An offer of nothing changes nothing.
pub proof fn law_offer_makes_or_extends_its_category<D>(
    categories: Map<Seq<char>, CategoryView<D>>,
    name: Seq<char>,
    icon: Option<Seq<char>>,
    actions: Seq<ActionView<D>>,
)
    ensures
        ({
            let after = with_offer(categories, name, icon, actions);
            &&& after.contains_key(name) <==> categories.contains_key(name) || actions.len() > 0
            &&& !categories.contains_key(name) && actions.len() > 0 ==> after[name].icon == icon
                && after[name].actions == actions
            &&& categories.contains_key(name) ==> after[name].icon == categories[name].icon
            &&& categories.contains_key(name) ==> after[name].actions == with_actions(
                categories[name].actions,
                actions,
            )
            &&& actions.len() == 0 ==> after == categories
        }),
{
    if actions.len() == 0 {
        assert(with_offer(categories, name, icon, actions) =~= categories);
    }
}

/// After an offer each offered action is in its category: where several of the
/// offer share an identifier, at least the last of them. An action that was there
/// and has an identifier that is not offered is still there.
pub proof fn law_offered_actions_are_listed<D>(
    categories: Map<Seq<char>, CategoryView<D>>,
    name: Seq<char>,
    icon: Option<Seq<char>>,
    actions: Seq<ActionView<D>>,
    at: int,
)
    requires
        0 <= at < actions.len(),
        forall|i: int| at < i < actions.len() ==> (#[trigger] actions[i]).uuid != actions[at].uuid,
    ensures
        with_offer(categories, name, icon, actions)[name].actions.contains(actions[at]),
{
    if categories.contains_key(name) {
        lemma_last_is_listed(categories[name].actions, actions, at);
    } else {
        assert(actions.contains(actions[at]));
    }
}

proof fn lemma_last_is_listed<D>(
    actions: Seq<ActionView<D>>,
    added: Seq<ActionView<D>>,
    at: int,
)
    requires
        0 <= at < added.len(),
        forall|i: int| at < i < added.len() ==> (#[trigger] added[i]).uuid != added[at].uuid,
    ensures
        with_actions(actions, added).contains(added[at]),
    decreases added.len(),
{
    let before = with_actions(actions, added.drop_last());
    let last = added.last();
    let after = with_action(before, last);
    uuids(before).index_of_first_ensures(last.uuid);
    if at == added.len() - 1 {
        assert(after[after.len() - 1] == last);
    } else {
        lemma_last_is_listed(actions, added.drop_last(), at);
        assert(added[added.len() - 1].uuid != added[at].uuid);
        let i = choose|i: int| 0 <= i < before.len() && before[i] == added[at];
        match uuids(before).index_of_first(last.uuid) {
            Some(removed) => {
                assert(uuids(before)[removed] == before[removed].uuid);
                assert(after[if i < removed { i } else { i - 1 }] == added[at]);
            },
            None => {
                assert(after[i] == added[at]);
            },
        }
    }
}

/// Putting in an action puts it last. The first action with its identifier goes,
/// and all others stay in their order; where there is none, all stay.
pub proof fn law_action_takes_the_place_of_its_namesake<D>(
    actions: Seq<ActionView<D>>,
    action: ActionView<D>,
    at: int,
)
    requires
        0 <= at <= actions.len(),
        at < actions.len() ==> actions[at].uuid == action.uuid,
        forall|i: int| 0 <= i < at ==> (#[trigger] actions[i]).uuid != action.uuid,
    ensures
        with_action(actions, action) == if at < actions.len() {
            actions.take(at) + actions.skip(at + 1) + seq![action]
        } else {
            actions + seq![action]
        },
{
    let all = uuids(actions);
    all.index_of_first_ensures(action.uuid);
    match all.index_of_first(action.uuid) {
        Some(first) => {
            assert(all[first] == actions[first].uuid);
            if at < actions.len() {
                assert(all[at] == actions[at].uuid);
            }
            assert(first == at);
            assert(actions.remove(at).push(action) =~= actions.take(at) + actions.skip(at + 1)
                + seq![action]);
        },
        None => {
            if at < actions.len() {
                assert(all[at] == action.uuid);
                assert(all.contains(action.uuid));
            }
            assert(actions.push(action) =~= actions + seq![action]);
        },
    }
}

/// Offering two lists of actions one after the other is offering them as one list,
/// and a list of one action is put in as that action.
pub proof fn law_actions_are_put_in_one_by_one<D>(
    actions: Seq<ActionView<D>>,
    first: Seq<ActionView<D>>,
    second: Seq<ActionView<D>>,
    action: ActionView<D>,
)
    ensures
        with_actions(actions, Seq::empty()) == actions,
        with_actions(actions, seq![action]) == with_action(actions, action),
        with_actions(actions, first + second) == with_actions(with_actions(actions, first), second),
    decreases second.len(),
{
    reveal_with_fuel(with_actions, 2);
    assert(seq![action].drop_last() =~= Seq::empty());
    if second.len() == 0 {
        assert(first + second =~= first);
    } else {
        law_actions_are_put_in_one_by_one(actions, first, second.drop_last(), action);
        assert((first + second).drop_last() =~= first + second.drop_last());
        assert((first + second).last() == second.last());
    }
}

} // verus!
