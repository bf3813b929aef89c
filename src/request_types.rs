//! What is sent to the service to create or change pages, and the JSON bodies
//! written for it. Members whose value is absent are left out of a body, not
//! written as `null`.

use crate::ids::{hyphenated_text, Uuid};
use crate::json::{
    decimal_of, decimal_text, json_quoted, members_view, object_text, render_object, quote_json,
};
use crate::types::opt_view;
use vstd::prelude::*;
use vstd::string::*;

verus! {

/// The kind of page being created.
#[derive(Debug, Clone, Copy, PartialEq, Eq, Structural)]
pub enum PageKind {
    /// A regular wiki page.
    Item,
    /// A collection of pages.
    Collection,
}

impl Default for PageKind {
    fn default() -> (r: PageKind)
        ensures
            r is Item,
    {
        PageKind::Item
    }
}

/// The name of a page kind on the wire.
pub open spec fn kind_name(k: PageKind) -> Seq<char> {
    match k {
        PageKind::Item => "item"@,
        PageKind::Collection => "collection"@,
    }
}

/// A member that is written only where its value is there.
pub open spec fn opt_member(key: Seq<char>, value: Option<Seq<char>>) -> Seq<(Seq<char>, Seq<char>)> {
    match value {
        Some(x) => seq![(key, x)],
        None => Seq::empty(),
    }
}

/// The JSON text of an optional UUID.
pub open spec fn uuid_json(u: Option<Uuid>) -> Option<Seq<char>> {
    match u {
        Some(x) => Some(json_quoted(hyphenated_text(x@))),
        None => None,
    }
}

/// The JSON text of an optional string.
pub open spec fn text_json(t: Option<String>) -> Option<Seq<char>> {
    match t {
        Some(x) => Some(json_quoted(x@)),
        None => None,
    }
}

/// The JSON text of an optional index.
pub open spec fn index_json(n: Option<usize>) -> Option<Seq<char>> {
    match n {
        Some(x) => Some(decimal_of(x as nat)),
        None => None,
    }
}

/// A new page or collection to create. Made with a `NewPageBuilder`.
#[derive(Debug, Clone)]
pub struct NewPage {
    /// The workspace to create the page at the top of; exclusive with `parent_id`.
    pub workspace_id: Option<Uuid>,
    /// The collection to create the page in; exclusive with `workspace_id`.
    pub parent_id: Option<Uuid>,
    /// The page's title.
    pub title: Option<String>,
    /// Where among its siblings the page goes (from 0); at the end where absent.
    pub index: Option<usize>,
    /// Whether an item or a collection is created.
    pub object: PageKind,
    /// Markdown content; only items have it.
    pub content: Option<String>,
}

/// The members of the JSON body that creates the page `p`, in order.
pub open spec fn new_page_members(p: NewPage) -> Seq<(Seq<char>, Seq<char>)> {
    opt_member("workspaceId"@, uuid_json(p.workspace_id)) + opt_member(
        "parentId"@,
        uuid_json(p.parent_id),
    ) + opt_member("title"@, text_json(p.title)) + opt_member("index"@, index_json(p.index))
        + seq![("object"@, json_quoted(kind_name(p.object)))] + opt_member(
        "content"@,
        text_json(p.content),
    )
}

/// Appends a member whose value is there.
fn push_member(m: &mut Vec<(String, String)>, key: &str, value: Option<String>)
    ensures
        members_view(final(m)@) == members_view(old(m)@) + opt_member(key@, opt_view(value)),
{
    let ghost before = old(m)@;
    match value {
        Some(x) => {
            m.push((String::from_str(key), x));
            assert(members_view(m@) =~= members_view(before) + opt_member(key@, opt_view(value)));
        },
        None => {
            assert(members_view(m@) =~= members_view(before) + opt_member(key@, opt_view(value)));
        },
    }
}

/// The JSON text of an optional UUID.
fn uuid_value_text(u: Option<Uuid>) -> (r: Option<String>)
    ensures
        opt_view(r) == uuid_json(u),
{
    match u {
        Some(x) => Some(quote_json(x.to_text().as_str())),
        None => None,
    }
}

/// The JSON text of an optional string.
fn text_value_text(t: &Option<String>) -> (r: Option<String>)
    ensures
        opt_view(r) == text_json(*t),
{
    match t {
        Some(x) => Some(quote_json(x.as_str())),
        None => None,
    }
}

impl NewPage {
    /// The JSON body that creates this page: `workspaceId`, `parentId`, `title`,
    /// `index`, `object` and `content`, each left out where absent.
    pub fn to_json_text(&self) -> (r: String)
        ensures
            r@ == object_text(new_page_members(*self)),
    {
        let mut m: Vec<(String, String)> = Vec::new();
        assert(members_view(m@) =~= Seq::empty());
        push_member(&mut m, "workspaceId", uuid_value_text(self.workspace_id));
        push_member(&mut m, "parentId", uuid_value_text(self.parent_id));
        push_member(&mut m, "title", text_value_text(&self.title));
        let index = match self.index {
            Some(n) => Some(decimal_text(n as u64)),
            None => None,
        };
        assert(opt_view(index) == index_json(self.index));
        push_member(&mut m, "index", index);
        let kind = match self.object {
            PageKind::Item => String::from_str("item"),
            PageKind::Collection => String::from_str("collection"),
        };
        push_member(&mut m, "object", Some(quote_json(kind.as_str())));
        push_member(&mut m, "content", text_value_text(&self.content));
        assert(members_view(m@) =~= new_page_members(*self));
        render_object(&m)
    }
}

/// Stages a new page. Start with `item()` or `collection()`, set what is
/// needed, and finish with `build()`. At most one of workspace and parent is set:
/// setting one clears the other.
#[derive(Debug, Clone)]
pub struct NewPageBuilder {
    pub workspace_id: Option<Uuid>,
    pub parent_id: Option<Uuid>,
    pub title: Option<String>,
    pub index: Option<usize>,
    pub object: PageKind,
    pub content: Option<String>,
}

impl NewPageBuilder {
    /// At most one of workspace and parent is set.
    pub open spec fn placed_once(&self) -> bool {
        !(self.workspace_id is Some && self.parent_id is Some)
    }

    /// Starts a new item, with nothing else set.
    pub fn item() -> (r: NewPageBuilder)
        ensures
            r.placed_once(),
            r.object is Item,
            r.workspace_id is None,
            r.parent_id is None,
            r.title is None,
            r.index is None,
            r.content is None,
    {
        NewPageBuilder {
            workspace_id: None,
            parent_id: None,
            title: None,
            index: None,
            object: PageKind::Item,
            content: None,
        }
    }

    /// Starts a new collection, with nothing else set.
    pub fn collection() -> (r: NewPageBuilder)
        ensures
            r.placed_once(),
            r.object is Collection,
            r.workspace_id is None,
            r.parent_id is None,
            r.title is None,
            r.index is None,
            r.content is None,
    {
        NewPageBuilder {
            workspace_id: None,
            parent_id: None,
            title: None,
            index: None,
            object: PageKind::Collection,
            content: None,
        }
    }

    /// The page staged so far. Content is kept for items and dropped for
    /// collections. Whether a workspace or a parent was set is not checked.
    pub fn build(&self) -> (r: NewPage)
        ensures
            r.workspace_id == self.workspace_id,
            r.parent_id == self.parent_id,
            opt_view(r.title) == opt_view(self.title),
            r.index == self.index,
            r.object == self.object,
            self.object is Item ==> opt_view(r.content) == opt_view(self.content),
            self.object is Collection ==> r.content is None,
    {
        let content = match self.object {
            PageKind::Collection => None,
            PageKind::Item => match &self.content {
                Some(c) => Some(c.clone()),
                None => None,
            },
        };
        let title = match &self.title {
            Some(t) => Some(t.clone()),
            None => None,
        };
        NewPage {
            workspace_id: self.workspace_id,
            parent_id: self.parent_id,
            title,
            index: self.index,
            object: self.object,
            content,
        }
    }

    /// Sets the title.
    pub fn title(&mut self, title: &str) -> (r: &mut NewPageBuilder)
        ensures
            opt_view(r.title) == Some(title@),
            r.workspace_id == old(self).workspace_id,
            r.parent_id == old(self).parent_id,
            r.index == old(self).index,
            r.object == old(self).object,
            r.content == old(self).content,
            *final(self) == *final(r),
    {
        self.title = Some(String::from_str(title));
        self
    }

    /// Sets where among its siblings the page goes (from 0).
    pub fn index(&mut self, index: usize) -> (r: &mut NewPageBuilder)
        ensures
            r.index == Some(index),
            r.workspace_id == old(self).workspace_id,
            r.parent_id == old(self).parent_id,
            r.title == old(self).title,
            r.object == old(self).object,
            r.content == old(self).content,
            *final(self) == *final(r),
    {
        self.index = Some(index);
        self
    }

    /// Places the page at the top of the workspace `id`; clears any parent.
    pub fn workspace(&mut self, id: &Uuid) -> (r: &mut NewPageBuilder)
        ensures
            r.workspace_id == Some(*id),
            r.parent_id is None,
            r.placed_once(),
            r.title == old(self).title,
            r.index == old(self).index,
            r.object == old(self).object,
            r.content == old(self).content,
            *final(self) == *final(r),
    {
        self.workspace_id = Some(*id);
        self.parent_id = None;
        self
    }

    /// Places the page in the collection `id`; clears any workspace.
    pub fn parent(&mut self, id: &Uuid) -> (r: &mut NewPageBuilder)
        ensures
            r.parent_id == Some(*id),
            r.workspace_id is None,
            r.placed_once(),
            r.title == old(self).title,
            r.index == old(self).index,
            r.object == old(self).object,
            r.content == old(self).content,
            *final(self) == *final(r),
    {
        self.parent_id = Some(*id);
        self.workspace_id = None;
        self
    }

    /// Sets the Markdown content; `build()` drops it for collections.
    pub fn content(&mut self, content: &str) -> (r: &mut NewPageBuilder)
        ensures
            opt_view(r.content) == Some(content@),
            r.workspace_id == old(self).workspace_id,
            r.parent_id == old(self).parent_id,
            r.title == old(self).title,
            r.index == old(self).index,
            r.object == old(self).object,
            *final(self) == *final(r),
    {
        self.content = Some(String::from_str(content));
        self
    }
}

/// A change to an item or collection: a new title, new content, or both.
#[derive(Debug, Clone)]
pub struct ModifyItem {
    /// The new title, if it changes.
    pub title: Option<String>,
    /// The new content, if it changes.
    pub content: Option<String>,
}

/// The members of the JSON body that makes the change `m`, in order.
pub open spec fn modify_item_members(m: ModifyItem) -> Seq<(Seq<char>, Seq<char>)> {
    opt_member("title"@, text_json(m.title)) + opt_member("content"@, text_json(m.content))
}

impl ModifyItem {
    /// The JSON body that makes this change: `title` and `content`, each left out
    /// where absent.
    pub fn to_json_text(&self) -> (r: String)
        ensures
            r@ == object_text(modify_item_members(*self)),
    {
        let mut m: Vec<(String, String)> = Vec::new();
        assert(members_view(m@) =~= Seq::empty());
        push_member(&mut m, "title", text_value_text(&self.title));
        push_member(&mut m, "content", text_value_text(&self.content));
        assert(members_view(m@) =~= modify_item_members(*self));
        render_object(&m)
    }
}

/// The body that creates an item placed in a workspace, with a title and
/// content, holds the title, the content and the workspace id, and has no
/// parent member at all (not even a `null` one).
pub proof fn lemma_new_item_body(p: NewPage, title: Seq<char>, content: Seq<char>, workspace: Uuid)
    requires
        p.object is Item,
        opt_view(p.title) == Some(title),
        opt_view(p.content) == Some(content),
        p.workspace_id == Some(workspace),
        p.parent_id is None,
    ensures
        new_page_members(p).contains(("title"@, json_quoted(title))),
        new_page_members(p).contains(("content"@, json_quoted(content))),
        new_page_members(p).contains(("workspaceId"@, json_quoted(hyphenated_text(workspace@)))),
        forall|i: int|
            0 <= i < new_page_members(p).len() ==> (#[trigger] new_page_members(p)[i]).0
                != "parentId"@,
{
    reveal_strlit("parentId");
    reveal_strlit("workspaceId");
    reveal_strlit("title");
    reveal_strlit("index");
    reveal_strlit("object");
    reveal_strlit("content");
    let m = new_page_members(p);
    let head = seq![("workspaceId"@, json_quoted(hyphenated_text(workspace@)))] + seq![
        ("title"@, json_quoted(title)),
    ];
    let tail = opt_member("index"@, index_json(p.index)) + seq![
        ("object"@, json_quoted(kind_name(p.object))),
    ] + seq![("content"@, json_quoted(content))];
    assert(m =~= head + tail);
    assert(m[0] == ("workspaceId"@, json_quoted(hyphenated_text(workspace@))));
    assert(m[1] == ("title"@, json_quoted(title)));
    assert(m[m.len() - 1] == ("content"@, json_quoted(content)));
    assert forall|i: int| 0 <= i < m.len() implies (#[trigger] m[i]).0 != "parentId"@ by {
        assert(m[i].0 == "workspaceId"@ || m[i].0 == "title"@ || m[i].0 == "index"@ || m[i].0
            == "object"@ || m[i].0 == "content"@);
        assert(m[i].0.len() != 8 || m[i].0[0] != 'p');
    }
}

} // verus!
