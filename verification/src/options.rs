//! The configuration resolver: what the initialization options say about
//! the server to start.

use vstd::prelude::*;
use crate::text::{blank, is_blank};

verus! {

/// A structured value as the host sends it: the data model of JSON.
#[derive(Debug, PartialEq, Eq)]
pub enum Json {
    Null,
    Bool(bool),
    /// A number, kept in its decimal notation.
    Number(String),
    Text(String),
    List(Vec<Json>),
    /// A mapping, as its members in order. Of two members with one key the
    /// first is the one that counts.
    Object(Vec<(String, Json)>),
}

/// The value of the first member named `key`.
pub open spec fn lookup(members: Seq<(String, Json)>, key: Seq<char>) -> Option<Json>
    decreases members.len(),
{
    if members.len() == 0 {
        None
    } else if members[0].0@ == key {
        Some(members[0].1)
    } else {
        lookup(members.drop_first(), key)
    }
}

/// The texts among `items`, in order; items that are no texts are left out.
pub open spec fn texts(items: Seq<Json>) -> Seq<Seq<char>>
    decreases items.len(),
{
    if items.len() == 0 {
        Seq::empty()
    } else {
        let before = texts(items.drop_last());
        match items.last() {
            Json::Text(s) => before.push(s@),
            _ => before,
        }
    }
}

/// The values of a list of strings, in order.
pub open spec fn string_views(strings: Seq<String>) -> Seq<Seq<char>> {
    Seq::new(strings.len(), |i: int| strings[i]@)
}

impl Json {
    /// The member `key` of a mapping; `None` for any other value.
    pub open spec fn member(self, key: Seq<char>) -> Option<Json> {
        match self {
            Json::Object(members) => lookup(members@, key),
            _ => None,
        }
    }

    /// The characters of a text; `None` for any other value.
    pub open spec fn text(self) -> Option<Seq<char>> {
        match self {
            Json::Text(s) => Some(s@),
            _ => None,
        }
    }

    /// The items of a list; `None` for any other value.
    pub open spec fn items(self) -> Option<Seq<Json>> {
        match self {
            Json::List(items) => Some(items@),
            _ => None,
        }
    }

    /// Looks up the member `key` of a mapping.
    pub fn get(&self, key: &str) -> (r: Option<&Json>)
        ensures
            match r {
                Some(value) => self.member(key@) == Some(*value),
                None => self.member(key@).is_none(),
            },
    {
        match self {
            Json::Object(members) => {
                let wanted = key.to_owned();
                let mut i: usize = 0;
                assert(members@.skip(0) =~= members@);
                while i < members.len()
                    invariant
                        i <= members.len(),
                        wanted@ == key@,
                        self.member(key@) == lookup(members@, key@),
                        lookup(members@, key@) == lookup(members@.skip(i as int), key@),
                    decreases members.len() - i,
                {
                    proof {
                        let rest = members@.skip(i as int);
                        assert(rest.len() > 0);
                        assert(rest[0] == members@[i as int]);
                        assert(rest.drop_first() =~= members@.skip(i + 1));
                        assert(lookup(rest, key@) == if rest[0].0@ == key@ {
                            Some(rest[0].1)
                        } else {
                            lookup(members@.skip(i + 1), key@)
                        });
                    }
                    let member = &members[i];
                    if member.0 == wanted {
                        return Some(&member.1);
                    }
                    i += 1;
                }
                None
            },
            _ => None,
        }
    }

    /// The text that this value is, if it is one.
    pub fn as_text(&self) -> (r: Option<&String>)
        ensures
            match r {
                Some(s) => self.text() == Some(s@),
                None => self.text().is_none(),
            },
    {
        match self {
            Json::Text(s) => Some(s),
            _ => None,
        }
    }

    /// The items of the list that this value is, if it is one.
    pub fn as_list(&self) -> (r: Option<&Vec<Json>>)
        ensures
            match r {
                Some(items) => self.items() == Some(items@),
                None => self.items().is_none(),
            },
    {
        match self {
            Json::List(items) => Some(items),
            _ => None,
        }
    }
}

/// What the options say about the server to start.
#[derive(Debug, PartialEq, Eq)]
pub enum ServerChoice {
    /// The options name a server: start it, with these arguments.
    Explicit { path: String, args: Vec<String> },
    /// The options name none: start the bundled server, with these arguments.
    UseDefault { args: Vec<String> },
}

/// The mathematical value of a [`ServerChoice`].
pub enum ChoiceView {
    Explicit { path: Seq<char>, args: Seq<Seq<char>> },
    UseDefault { args: Seq<Seq<char>> },
}

impl View for ServerChoice {
    type V = ChoiceView;

    open spec fn view(&self) -> ChoiceView {
        match self {
            ServerChoice::Explicit { path, args } => ChoiceView::Explicit {
                path: path@,
                args: string_views(args@),
            },
            ServerChoice::UseDefault { args } => ChoiceView::UseDefault {
                args: string_views(args@),
            },
        }
    }
}

/// The `lsp` section of the options, if the options are there and have one.
pub open spec fn lsp_section(options: Option<Json>) -> Option<Json> {
    match options {
        Some(o) => o.member("lsp"@),
        None => None,
    }
}

/// The server arguments that the options give: the texts in the list
/// `lsp.serverArgs`, in order. A missing or malformed list gives none.
pub open spec fn server_args(options: Option<Json>) -> Seq<Seq<char>> {
    match lsp_section(options) {
        Some(lsp) => match lsp.member("serverArgs"@) {
            Some(list) => match list.items() {
                Some(items) => texts(items),
                None => Seq::empty(),
            },
            None => Seq::empty(),
        },
        None => Seq::empty(),
    }
}

/// The text at `lsp.serverPath`, whatever it holds; `None` where the
/// options, the section or the member is missing or the member is no text.
pub open spec fn path_text(options: Option<Json>) -> Option<Seq<char>> {
    match lsp_section(options) {
        Some(lsp) => match lsp.member("serverPath"@) {
            Some(value) => value.text(),
            None => None,
        },
        None => None,
    }
}

/// The server path that the options give: the text `lsp.serverPath`, as it
/// stands, where it is there and something is left of it after trimming.
pub open spec fn server_path(options: Option<Json>) -> Option<Seq<char>> {
    match path_text(options) {
        Some(path) => if is_blank(path) {
            None
        } else {
            Some(path)
        },
        None => None,
    }
}

/// The choice that the options make.
pub open spec fn resolved(options: Option<Json>) -> ChoiceView {
    match server_path(options) {
        Some(path) => ChoiceView::Explicit { path, args: server_args(options) },
        None => ChoiceView::UseDefault { args: server_args(options) },
    }
}

/// Options whose `lsp.serverPath` is a text with something left of it
/// after trimming choose that server, by the path as it is written.
pub proof fn given_path_is_explicit(options: Option<Json>, path: Seq<char>)
    requires
        path_text(options) == Some(path),
        !is_blank(path),
    ensures
        resolved(options) == (ChoiceView::Explicit { path, args: server_args(options) }),
{
}

/// Options without a text at `lsp.serverPath`, or with one that is empty
/// or all whitespace, choose the default.
pub proof fn missing_path_is_default(options: Option<Json>)
    requires
        path_text(options) matches Some(path) ==> is_blank(path),
    ensures
        resolved(options) == (ChoiceView::UseDefault { args: server_args(options) }),
{
}

/// An empty list of arguments and no list at all come to the same: no
/// arguments.
pub proof fn empty_arguments_are_no_arguments(options: Option<Json>)
    requires
        lsp_section(options) matches Some(lsp) ==> (lsp.member("serverArgs"@) matches Some(list)
            ==> (list.items() matches Some(items) ==> items.len() == 0)),
    ensures
        server_args(options) == Seq::<Seq<char>>::empty(),
{
}

/// Collects the texts of a list, in order.
pub fn collect_texts(items: &Vec<Json>) -> (out: Vec<String>)
    ensures
        string_views(out@) == texts(items@),
{
    let mut out: Vec<String> = Vec::new();
    let mut i: usize = 0;
    assert(items@.take(0).len() == 0);
    assert(string_views(out@) =~= texts(items@.take(0)));
    while i < items.len()
        invariant
            i <= items.len(),
            string_views(out@) == texts(items@.take(i as int)),
        decreases items.len() - i,
    {
        let ghost before = string_views(out@);
        proof {
            let upto = items@.take(i + 1);
            assert(upto.drop_last() == items@.take(i as int));
            assert(upto.last() == items@[i as int]);
        }
        match &items[i] {
            Json::Text(s) => {
                out.push(s.clone());
                assert(string_views(out@) =~= before.push(s@));
            },
            _ => {},
        }
        i += 1;
    }
    assert(items@.take(items.len() as int) == items@);
    out
}

/// Reads the server arguments from the `lsp` section.
fn read_args(lsp: &Json) -> (out: Vec<String>)
    ensures
        string_views(out@) == match lsp.member("serverArgs"@) {
            Some(list) => match list.items() {
                Some(items) => texts(items),
                None => Seq::empty(),
            },
            None => Seq::empty(),
        },
{
    let found = match lsp.get("serverArgs") {
        Some(list) => list.as_list(),
        None => None,
    };
    match found {
        Some(items) => collect_texts(items),
        None => {
            let out: Vec<String> = Vec::new();
            assert(string_views(out@) =~= Seq::empty());
            out
        },
    }
}

/// Resolves the initialization options. The answer is `Explicit` exactly
/// where `lsp.serverPath` is a text of which something is left after
/// trimming; missing or malformed options never fail, they give
/// `UseDefault`.
pub fn resolve(options: Option<&Json>) -> (choice: ServerChoice)
    ensures
        choice@ == resolved(
            match options {
                Some(o) => Some(*o),
                None => None,
            },
        ),
{
    let lsp = match options {
        Some(o) => o.get("lsp"),
        None => None,
    };
    match lsp {
        Some(lsp) => {
            let args = read_args(lsp);
            let path = match lsp.get("serverPath") {
                Some(value) => value.as_text(),
                None => None,
            };
            match path {
                Some(path) => {
                    if blank(path.as_str()) {
                        ServerChoice::UseDefault { args }
                    } else {
                        ServerChoice::Explicit { path: path.clone(), args }
                    }
                },
                None => ServerChoice::UseDefault { args },
            }
        },
        None => {
            let args: Vec<String> = Vec::new();
            assert(string_views(args@) =~= Seq::empty());
            ServerChoice::UseDefault { args }
        },
    }
}

} // verus!
