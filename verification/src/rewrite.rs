//! What the rewrite makes of a whole document, and what holds of every
//! rewrite.
//!
//! The anchors are decided on the outline of the document; here they are
//! carried over to its full content, of which the rewrite changes two things
//! only: one declaration is added, and the enumeration function gets a new
//! body.

use vstd::prelude::*;
use crate::error::SyncError;
use crate::outline::{
    declared, enumeration_anchor, enumeration_text, functions_of, insertion_point,
    lemma_anchor, lemma_declared_anchor, lemma_declared_names, lemma_insertion_point,
    migration_names, rewrite_plan, Anchor, NodeView,
};
use crate::pattern::is_migration_name;
use crate::syntax::{
    is_identifier, parsed_expression, parsed_tree, token_text, ItemView, MemberView, TreeView,
};

verus! {

/// What the outline holds of one node.
pub open spec fn node_of(item: ItemView) -> NodeView {
    match item {
        ItemView::Module { name, .. } => NodeView::Module { name, unit: is_migration_name(name) },
        ItemView::Implementation { trait_name: Some(trait_name), members, .. } => {
            NodeView::Implementation {
                trait_name,
                functions: members.map_values(|member: MemberView| member.function_name()),
            }
        },
        _ => NodeView::Other,
    }
}

/// The outline of the nodes of a document.
pub open spec fn outline_of(items: Seq<ItemView>) -> Seq<NodeView> {
    items.map_values(|item: ItemView| node_of(item))
}

/// The statements of the enumeration function of a document, where that
/// function is found and has a block.
pub open spec fn enumeration_body(items: Seq<ItemView>) -> Option<Seq<char>> {
    match enumeration_anchor(outline_of(items)) {
        Anchor::Found { item, member } => match items[item].members()[member] {
            MemberView::Function { body, .. } => body,
            MemberView::Other { .. } => None,
        },
        _ => None,
    }
}

/// The document with the statements of its enumeration function replaced by
/// `body`; the document itself where it has no such function.
pub open spec fn with_enumeration_body(tree: TreeView, body: Seq<char>) -> TreeView {
    match enumeration_anchor(outline_of(tree.items)) {
        Anchor::Found { item, member } => TreeView {
            preamble: tree.preamble,
            items: tree.items.update(item, tree.items[item].with_body(member, body)),
        },
        _ => tree,
    }
}

/// What a rewrite of `tree` for the new unit `name` comes to. Where a plan
/// can be made and its enumeration is an expression, the function at the
/// plan's anchor gets that expression as its body and the bare declaration of
/// `name` is put at the plan's index; everything else stays. Otherwise the
/// rewrite fails: with the plan's error, or because the enumeration is no
/// expression.
pub open spec fn rewrite_outcome(tree: TreeView, name: Seq<char>) -> Result<TreeView, SyncError> {
    match rewrite_plan(
        outline_of(tree.items),
        name,
        is_identifier(name),
        is_migration_name(name),
    ) {
        Err(error) => Err(error),
        Ok(plan) => match parsed_expression(plan.enumeration) {
            None => Err(SyncError::Format),
            Some(body) => Ok(
                TreeView {
                    preamble: tree.preamble,
                    items: tree.items.update(
                        plan.item,
                        tree.items[plan.item].with_body(plan.member, body),
                    ).insert(plan.index, ItemView::declaration(name)),
                },
            ),
        },
    }
}

/// What a synchronization of the registry text `source` with the new unit
/// `name` comes to: the token text of the rewritten document, or the first
/// failure.
pub open spec fn update_outcome(source: Seq<char>, name: Seq<char>) -> Result<Seq<char>, SyncError> {
    match parsed_tree(source) {
        None => Err(SyncError::Parse),
        Some(tree) => match rewrite_outcome(tree, name) {
            Ok(after) => Ok(token_text(after)),
            Err(error) => Err(error),
        },
    }
}

/// A new body changes nothing in the outline.
pub proof fn lemma_body_keeps_outline(items: Seq<ItemView>, item: int, member: int, body: Seq<char>)
    requires
        0 <= item < items.len(),
        0 <= member < items[item].members().len(),
    ensures
        outline_of(items.update(item, items[item].with_body(member, body))) == outline_of(items),
{
    let replaced = items[item].with_body(member, body);
    let members = items[item].members();
    assert(node_of(replaced) == node_of(items[item])) by {
        match items[item] {
            ItemView::Implementation { .. } => {
                let after = members.update(member, members[member].with_body(body));
                assert(after.map_values(|member: MemberView| member.function_name())
                    == members.map_values(|member: MemberView| member.function_name()));
            },
            _ => {},
        }
    }
    assert(outline_of(items.update(item, replaced)) == outline_of(items));
}

/// The outline of a document with one more bare declaration is the outline
/// with that module declared.
pub proof fn lemma_declaration_in_outline(items: Seq<ItemView>, at: int, name: Seq<char>)
    requires
        0 <= at <= items.len(),
    ensures
        outline_of(items.insert(at, ItemView::declaration(name))) == outline_of(items).insert(
            at,
            NodeView::Module { name, unit: is_migration_name(name) },
        ),
{
    assert(outline_of(items.insert(at, ItemView::declaration(name))) == outline_of(items).insert(
        at,
        NodeView::Module { name, unit: is_migration_name(name) },
    ));
}

/// The shape of a successful rewrite: the outline of the result is the old
/// outline with the new module declared; the enumeration function is where
/// it was, one node further down where the declaration landed above it; and
/// its body is the expression that enumerates the units of the result.
pub proof fn lemma_rewrite_shape(tree: TreeView, name: Seq<char>, after: TreeView)
    requires
        rewrite_outcome(tree, name) == Ok::<TreeView, SyncError>(after),
    ensures
        outline_of(after.items) == declared(
            outline_of(tree.items),
            name,
            is_migration_name(name),
        ),
        enumeration_anchor(outline_of(tree.items)) is Found,
        enumeration_anchor(outline_of(after.items)) == (Anchor::Found {
            item: if insertion_point(outline_of(tree.items)) <= enumeration_anchor(
                outline_of(tree.items),
            )->item {
                enumeration_anchor(outline_of(tree.items))->item + 1
            } else {
                enumeration_anchor(outline_of(tree.items))->item
            },
            member: enumeration_anchor(outline_of(tree.items))->member,
        }),
        enumeration_body(after.items) == parsed_expression(
            enumeration_text(migration_names(outline_of(after.items))),
        ),
{
    let items = tree.items;
    let nodes = outline_of(items);
    let unit = is_migration_name(name);
    let item = enumeration_anchor(nodes)->item;
    let member = enumeration_anchor(nodes)->member;
    let at = insertion_point(nodes);
    let text = enumeration_text(migration_names(declared(nodes, name, unit)));
    let body = parsed_expression(text).unwrap();
    lemma_anchor(nodes);
    lemma_insertion_point(nodes);
    assert(functions_of(nodes[item]).len() == items[item].members().len());
    assert(functions_of(nodes[item])[member] == items[item].members()[member].function_name());
    let replaced = items[item].with_body(member, body);
    let updated = items.update(item, replaced);
    lemma_body_keeps_outline(items, item, member, body);
    lemma_declaration_in_outline(updated, at, name);
    lemma_declared_anchor(nodes, name, unit);
    assert(after.items == updated.insert(at, ItemView::declaration(name)));
    let moved = if at <= item {
        item + 1
    } else {
        item
    };
    assert(after.items[moved] == replaced);
    assert(replaced.members()[member] == items[item].members()[member].with_body(body));
}

/// Order is preserved. After a successful rewrite for a name that denotes a
/// unit, the units of the document are those it had before, in their old
/// order, with the new one last; and the enumeration function holds the
/// expression that enumerates exactly these, in this order.
pub proof fn lemma_order_preserved(tree: TreeView, name: Seq<char>, after: TreeView)
    requires
        rewrite_outcome(tree, name) == Ok::<TreeView, SyncError>(after),
        is_migration_name(name),
    ensures
        migration_names(outline_of(after.items)) == migration_names(outline_of(tree.items)).push(
            name,
        ),
        enumeration_body(after.items) == parsed_expression(
            enumeration_text(migration_names(outline_of(tree.items)).push(name)),
        ),
{
    lemma_rewrite_shape(tree, name, after);
    lemma_declared_names(outline_of(tree.items), name, true);
}

/// The enumeration heals itself. After a successful rewrite the enumeration
/// function holds the expression that enumerates the units which the
/// document now declares, in the order of their declarations; and whatever
/// that function held before has no part in the outcome.
pub proof fn lemma_enumeration_self_heals(
    tree: TreeView,
    name: Seq<char>,
    after: TreeView,
    drifted: Seq<char>,
)
    requires
        rewrite_outcome(tree, name) == Ok::<TreeView, SyncError>(after),
    ensures
        enumeration_body(after.items) == parsed_expression(
            enumeration_text(migration_names(outline_of(after.items))),
        ),
        rewrite_outcome(with_enumeration_body(tree, drifted), name) == Ok::<TreeView, SyncError>(
            after,
        ),
{
    lemma_rewrite_shape(tree, name, after);
    let items = tree.items;
    let nodes = outline_of(items);
    let item = enumeration_anchor(nodes)->item;
    let member = enumeration_anchor(nodes)->member;
    lemma_anchor(nodes);
    assert(functions_of(nodes[item]).len() == items[item].members().len());
    let stale = items[item].with_body(member, drifted);
    let other = items.update(item, stale);
    lemma_body_keeps_outline(items, item, member, drifted);
    let body = parsed_expression(
        enumeration_text(migration_names(declared(nodes, name, is_migration_name(name)))),
    ).unwrap();
    assert(stale.with_body(member, body) == items[item].with_body(member, body)) by {
        assert(stale.members().update(member, stale.members()[member].with_body(body))
            == items[item].members().update(
            member,
            items[item].members()[member].with_body(body),
        ));
    }
    assert(other.update(item, stale.with_body(member, body)) == items.update(
        item,
        items[item].with_body(member, body),
    ));
}

/// An empty registry gets its first unit. Where the document declares no
/// unit and the new name denotes one, a successful rewrite leaves a document
/// that declares exactly that unit and enumerates exactly that unit; and
/// where the document declares no module at all, the new declaration is its
/// first node and its only module declaration.
pub proof fn lemma_first_unit(tree: TreeView, name: Seq<char>, after: TreeView)
    requires
        rewrite_outcome(tree, name) == Ok::<TreeView, SyncError>(after),
        is_migration_name(name),
        migration_names(outline_of(tree.items)).len() == 0,
    ensures
        migration_names(outline_of(after.items)) == seq![name],
        enumeration_body(after.items) == parsed_expression(enumeration_text(seq![name])),
        (forall|k: int| 0 <= k < tree.items.len() ==> !(#[trigger] tree.items[k] is Module)) ==> {
            &&& after.items.len() == tree.items.len() + 1
            &&& after.items[0] == ItemView::declaration(name)
            &&& forall|k: int| 1 <= k < after.items.len() ==> !(#[trigger] after.items[k] is Module)
        },
{
    lemma_order_preserved(tree, name, after);
    assert(migration_names(outline_of(tree.items)) == Seq::<Seq<char>>::empty());
    assert(Seq::<Seq<char>>::empty().push(name) == seq![name]);
    if forall|k: int| 0 <= k < tree.items.len() ==> !(#[trigger] tree.items[k] is Module) {
        let items = tree.items;
        let nodes = outline_of(items);
        let item = enumeration_anchor(nodes)->item;
        let member = enumeration_anchor(nodes)->member;
        lemma_anchor(nodes);
        lemma_insertion_point(nodes);
        assert(insertion_point(nodes) == 0) by {
            if insertion_point(nodes) > 0 {
                let k = insertion_point(nodes) - 1;
                assert(nodes[k] is Module);
                assert(items[k] is Module);
            }
        }
        let body = parsed_expression(
            enumeration_text(migration_names(declared(nodes, name, true))),
        ).unwrap();
        let updated = items.update(item, items[item].with_body(member, body));
        assert(after.items == updated.insert(0, ItemView::declaration(name)));
        assert forall|k: int| 1 <= k < after.items.len() implies !(
        #[trigger] after.items[k] is Module) by {
            assert(after.items[k] == updated[k - 1]);
            if k - 1 != item {
                assert(updated[k - 1] == items[k - 1]);
            }
        };
    }
}

/// Nothing but the new declaration and the enumeration body changes. After a
/// successful rewrite the preamble is as it was, the new declaration stands
/// at the insertion point, and with it taken out again the document is the
/// old one but for the body of the enumeration function: every other node is
/// the node it was, in its old place.
pub proof fn lemma_rest_untouched(tree: TreeView, name: Seq<char>, after: TreeView)
    requires
        rewrite_outcome(tree, name) == Ok::<TreeView, SyncError>(after),
    ensures
        after.preamble == tree.preamble,
        after.items.len() == tree.items.len() + 1,
        after.items[insertion_point(outline_of(tree.items))] == ItemView::declaration(name),
        parsed_expression(
            enumeration_text(migration_names(outline_of(after.items))),
        ).is_some(),
        (TreeView {
            preamble: after.preamble,
            items: after.items.remove(insertion_point(outline_of(tree.items))),
        }) == with_enumeration_body(
            tree,
            parsed_expression(
                enumeration_text(migration_names(outline_of(after.items))),
            ).unwrap(),
        ),
{
    lemma_rewrite_shape(tree, name, after);
    let items = tree.items;
    let nodes = outline_of(items);
    let item = enumeration_anchor(nodes)->item;
    let member = enumeration_anchor(nodes)->member;
    let at = insertion_point(nodes);
    lemma_anchor(nodes);
    lemma_insertion_point(nodes);
    let body = parsed_expression(
        enumeration_text(migration_names(declared(nodes, name, is_migration_name(name)))),
    ).unwrap();
    let updated = items.update(item, items[item].with_body(member, body));
    assert(after.items == updated.insert(at, ItemView::declaration(name)));
    assert(after.items.remove(at) == updated);
}

} // verus!
