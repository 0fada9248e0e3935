//! The registry document in memory: the parsed file, its outline, and the
//! rewrite carried out on the tree.

use vstd::prelude::*;
use vstd::string::StringExecFns;
use crate::error::SyncError;
use crate::outline::{functions_of, lemma_anchor, lemma_insertion_point, plan_rewrite, Node};
use crate::pattern::MigrationPattern;
use crate::rewrite::{node_of, outline_of, rewrite_outcome, update_outcome};
use crate::syntax::{
    function_name, implemented_trait, insert_declaration, is_identifier, item_count, member_count,
    module_name, parse_file, parse_identifier, parsed_tree, render_tokens, replace_body,
    token_text, tree_view, MemberView, TreeView,
};

verus! {

/// A parsed registry file.
pub struct RegistryDocument {
    tree: syn::File,
}

impl View for RegistryDocument {
    type V = TreeView;

    closed spec fn view(&self) -> TreeView {
        tree_view(self.tree)
    }
}

/// Whether `name` is an identifier that can name a module.
pub fn check_identifier(name: &str) -> (valid: bool)
    ensures
        valid == is_identifier(name@),
{
    match parse_identifier(name) {
        Some(spelling) => spelling == String::from_str(name),
        None => false,
    }
}

impl RegistryDocument {
    /// Parses the text of a registry file.
    pub fn load(source: &str) -> (loaded: Result<RegistryDocument, SyncError>)
        ensures
            match loaded {
                Ok(document) => parsed_tree(source@) == Some(document@),
                Err(error) => error == SyncError::Parse && parsed_tree(source@).is_none(),
            },
    {
        match parse_file(source) {
            Ok(tree) => Ok(RegistryDocument { tree }),
            Err(_) => Err(SyncError::Parse),
        }
    }

    /// Reads the names of the functions among the members of node `index`.
    fn functions(&self, index: usize) -> (functions: Vec<Option<String>>)
        requires
            index < self@.items.len(),
        ensures
            functions.deep_view() == self@.items[index as int].members().map_values(
                |member: MemberView| member.function_name(),
            ),
    {
        let ghost members = self@.items[index as int].members();
        let count: usize = member_count(&self.tree, index);
        let mut functions: Vec<Option<String>> = Vec::new();
        let mut at: usize = 0;
        while at < count
            invariant
                index < tree_view(self.tree).items.len(),
                members == tree_view(self.tree).items[index as int].members(),
                count == members.len(),
                at <= count,
                functions.len() == at,
                forall|k: int|
                    0 <= k < at ==> (#[trigger] functions[k]).deep_view()
                        == members[k].function_name(),
            decreases count - at,
        {
            let name = function_name(&self.tree, index, at);
            functions.push(name);
            at = at + 1;
        }
        assert(functions.deep_view() == members.map_values(
            |member: MemberView| member.function_name(),
        ));
        functions
    }

    /// Reads the outline of the document. Which module names denote units is
    /// decided by `pattern`.
    pub fn outline(&self, pattern: &MigrationPattern) -> (outline: Vec<Node>)
        ensures
            outline.deep_view() == outline_of(self@.items),
    {
        let ghost items = self@.items;
        let count: usize = item_count(&self.tree);
        let mut outline: Vec<Node> = Vec::new();
        let mut at: usize = 0;
        while at < count
            invariant
                items == tree_view(self.tree).items,
                count == items.len(),
                at <= count,
                outline.len() == at,
                forall|k: int|
                    0 <= k < at ==> (#[trigger] outline[k]).deep_view() == node_of(items[k]),
            decreases count - at,
        {
            let node = match module_name(&self.tree, at) {
                Some(name) => {
                    let unit = pattern.is_match(name.as_str());
                    Node::Module { name, unit }
                },
                None => match implemented_trait(&self.tree, at) {
                    Some(trait_name) => Node::Implementation {
                        trait_name,
                        functions: self.functions(at),
                    },
                    None => Node::Other,
                },
            };
            outline.push(node);
            at = at + 1;
        }
        assert(outline.deep_view() == outline_of(items));
        outline
    }

    /// Declares the new unit `name` and regenerates the enumeration. On
    /// failure the document is left as it was.
    pub fn rewrite(&mut self, name: &str, pattern: &MigrationPattern) -> (done: Result<
        (),
        SyncError,
    >)
        ensures
            match rewrite_outcome(old(self)@, name@) {
                Ok(after) => done.is_ok() && final(self)@ == after,
                Err(error) => done == Err::<(), SyncError>(error) && final(self)@ == old(self)@,
            },
    {
        let ghost tree = self@;
        let outline = self.outline(pattern);
        let plan = match plan_rewrite(
            &outline,
            name,
            check_identifier(name),
            pattern.is_match(name),
        ) {
            Ok(plan) => plan,
            Err(error) => {
                return Err(error);
            },
        };
        proof {
            let nodes = outline_of(tree.items);
            lemma_anchor(nodes);
            lemma_insertion_point(nodes);
            assert(functions_of(nodes[plan.item as int]).len()
                == tree.items[plan.item as int].members().len());
            assert(functions_of(nodes[plan.item as int])[plan.member as int]
                == tree.items[plan.item as int].members()[plan.member as int].function_name());
        }
        if !replace_body(&mut self.tree, plan.item, plan.member, plan.enumeration.as_str()) {
            return Err(SyncError::Format);
        }
        insert_declaration(&mut self.tree, plan.index, name);
        Ok(())
    }

    /// The token text of the document.
    pub fn token_text(&self) -> (text: String)
        ensures
            text@ == token_text(self@),
    {
        render_tokens(&self.tree)
    }
}

/// Synchronizes the registry text `source` with the new unit
/// `migration_name`: parses it, declares the unit, regenerates the
/// enumeration, and gives the token text of the result.
pub fn update_migrator(source: &str, migration_name: &str, pattern: &MigrationPattern) -> (updated:
    Result<String, SyncError>)
    ensures
        match update_outcome(source@, migration_name@) {
            Ok(text) => updated.is_ok() && updated.unwrap()@ == text,
            Err(error) => updated == Err::<String, SyncError>(error),
        },
{
    let mut document = match RegistryDocument::load(source) {
        Ok(document) => document,
        Err(error) => {
            return Err(error);
        },
    };
    match document.rewrite(migration_name, pattern) {
        Ok(()) => Ok(document.token_text()),
        Err(error) => Err(error),
    }
}

} // verus!
