//! The accessibility tree that the plan reads, and the searches over it.
use vstd::prelude::*;

use crate::text::{chars_eq, chars_have_prefix, chars_of, has_prefix, str_eq, trim, trim_str};

verus! {

broadcast use vstd::string::group_string_axioms;

/// Screen rectangle of an accessible node, in whole pixels.
#[derive(Clone, Copy, Debug, PartialEq, Eq, Structural)]
pub struct Bounds {
    pub x: i32,
    pub y: i32,
    pub width: i32,
    pub height: i32,
}

/// One node of the accessibility tree of the desktop.
#[derive(Debug)]
pub struct A11yNode {
    pub role: String,
    pub name: String,
    pub bounds: Option<Bounds>,
    pub states: Option<Vec<String>>,
    pub children: Option<Vec<A11yNode>>,
}

/// The node carries the named state flag.
pub open spec fn has_state(node: A11yNode, state: Seq<char>) -> bool {
    match node.states {
        Some(v) => exists|i: int| 0 <= i < v@.len() && (#[trigger] v@[i])@ == state,
        None => false,
    }
}

/// The chat's send button.
pub open spec fn is_send_button(node: A11yNode) -> bool {
    node.role@ == "push-button"@ && node.name@ == "Send(S)"@
}

/// An editable text field.
pub open spec fn is_editable_text(node: A11yNode) -> bool {
    node.role@ == "text"@ && has_state(node, "EDITABLE"@)
}

/// The first send button among `s`.
pub open spec fn first_send_button(s: Seq<A11yNode>) -> Option<A11yNode>
    decreases s.len(),
{
    if s.len() == 0 {
        None
    } else if is_send_button(s[0]) {
        Some(s[0])
    } else {
        first_send_button(s.drop_first())
    }
}

/// The first editable text field among `s`.
pub open spec fn first_editable_text(s: Seq<A11yNode>) -> Option<A11yNode>
    decreases s.len(),
{
    if s.len() == 0 {
        None
    } else if is_editable_text(s[0]) {
        Some(s[0])
    } else {
        first_editable_text(s.drop_first())
    }
}

/// The editor and send button of the first node (in depth-first order) whose
/// children hold both.
pub open spec fn edit_send_pair(node: A11yNode) -> Option<(A11yNode, A11yNode)>
    decreases node, 1int,
{
    match node.children {
        Some(c) => match (first_editable_text(c@), first_send_button(c@)) {
            (Some(e), Some(b)) => Some((e, b)),
            _ => edit_send_pair_in(c@),
        },
        None => None,
    }
}

/// The first pair found in the subtrees of `s`, in order.
pub open spec fn edit_send_pair_in(s: Seq<A11yNode>) -> Option<(A11yNode, A11yNode)>
    decreases s, 0int,
{
    if s.len() == 0 {
        None
    } else {
        match edit_send_pair(s[0]) {
            Some(p) => Some(p),
            None => edit_send_pair_in(s.drop_first()),
        }
    }
}

/// Some node of the tree is a send button.
pub open spec fn tree_has_send_button(node: A11yNode) -> bool
    decreases node, 1int,
{
    is_send_button(node) || match node.children {
        Some(c) => forest_has_send_button(c@),
        None => false,
    }
}

/// Some node of the forest is a send button.
pub open spec fn forest_has_send_button(s: Seq<A11yNode>) -> bool
    decreases s, 0int,
{
    if s.len() == 0 {
        false
    } else {
        tree_has_send_button(s[0]) || forest_has_send_button(s.drop_first())
    }
}

/// Some node of the tree is named exactly `message`.
pub open spec fn tree_has_name(node: A11yNode, message: Seq<char>) -> bool
    decreases node, 1int,
{
    node.name@ == message || match node.children {
        Some(c) => forest_has_name(c@, message),
        None => false,
    }
}

/// Some node of the forest is named exactly `message`.
pub open spec fn forest_has_name(s: Seq<A11yNode>, message: Seq<char>) -> bool
    decreases s, 0int,
{
    if s.len() == 0 {
        false
    } else {
        tree_has_name(s[0], message) || forest_has_name(s.drop_first(), message)
    }
}

/// A window frame titled `title`, or `title` followed by an opening bracket.
pub open spec fn is_chat_frame(node: A11yNode, title: Seq<char>) -> bool {
    node.role@ == "frame"@ && (node.name@ == title || has_prefix(node.name@, title.push('(')))
}

/// Some node of the tree is a chat frame for `title`.
pub open spec fn tree_has_chat_frame(node: A11yNode, title: Seq<char>) -> bool
    decreases node, 1int,
{
    is_chat_frame(node, title) || match node.children {
        Some(c) => forest_has_chat_frame(c@, title),
        None => false,
    }
}

/// Some node of the forest is a chat frame for `title`.
pub open spec fn forest_has_chat_frame(s: Seq<A11yNode>, title: Seq<char>) -> bool
    decreases s, 0int,
{
    if s.len() == 0 {
        false
    } else {
        tree_has_chat_frame(s[0], title) || forest_has_chat_frame(s.drop_first(), title)
    }
}

/// What `opened_chat_matches` answers: the trimmed chat name is not empty and
/// some frame of the tree carries it as its title.
pub open spec fn opened_chat_spec(node: A11yNode, chat_name: Seq<char>) -> bool {
    trim(chat_name).len() > 0 && tree_has_chat_frame(node, trim(chat_name))
}

/// The first list item (depth-first) whose parent is the list named "Chats";
/// `under_chats` tells whether `node` itself is a child of that list.
pub open spec fn chat_list_item(node: A11yNode, under_chats: bool) -> Option<A11yNode>
    decreases node, 1int,
{
    if under_chats && node.role@ == "list-item"@ {
        Some(node)
    } else {
        match node.children {
            Some(c) => chat_list_item_in(c@, node.role@ == "list"@ && node.name@ == "Chats"@),
            None => None,
        }
    }
}

/// The first chat list item in the subtrees of `s`.
pub open spec fn chat_list_item_in(s: Seq<A11yNode>, under_chats: bool) -> Option<A11yNode>
    decreases s, 0int,
{
    if s.len() == 0 {
        None
    } else {
        match chat_list_item(s[0], under_chats) {
            Some(n) => Some(n),
            None => chat_list_item_in(s.drop_first(), under_chats),
        }
    }
}

/// Some node of the tree (the node itself or any descendant) satisfies `pred`.
pub open spec fn any_node(node: A11yNode, pred: spec_fn(A11yNode) -> bool) -> bool
    decreases node, 1int,
{
    pred(node) || match node.children {
        Some(c) => any_node_in(c@, pred),
        None => false,
    }
}

/// Some node of some tree of the forest satisfies `pred`.
pub open spec fn any_node_in(s: Seq<A11yNode>, pred: spec_fn(A11yNode) -> bool) -> bool
    decreases s, 0int,
{
    if s.len() == 0 {
        false
    } else {
        any_node(s[0], pred) || any_node_in(s.drop_first(), pred)
    }
}

/// A node named exactly `name`.
pub open spec fn named(name: Seq<char>) -> spec_fn(A11yNode) -> bool {
    |n: A11yNode| n.name@ == name
}

/// A node of role `frame` whose title is `title`, alone or followed by `(`.
pub open spec fn frame_titled(title: Seq<char>) -> spec_fn(A11yNode) -> bool {
    |n: A11yNode| n.role@ == "frame"@ && (n.name@ == title || (n.name@.len() > title.len()
        && n.name@.subrange(0, title.len() as int) == title && n.name@[title.len() as int] == '('))
}

/// Half of `n`, rounded half away from zero (how `f64::round` rounds).
pub open spec fn half_away_from_zero(n: int) -> int {
    if n >= 0 {
        (n + 1) / 2
    } else {
        -((-n + 1) / 2)
    }
}

/// The rounded centre of a rectangle.
pub open spec fn center(b: Bounds) -> (int, int) {
    (
        half_away_from_zero(2 * b.x + b.width),
        half_away_from_zero(2 * b.y + b.height),
    )
}

proof fn lemma_skip_first<A>(s: Seq<A>, i: int)
    requires
        0 <= i < s.len(),
    ensures
        s.skip(i).len() > 0,
        s.skip(i)[0] == s[i],
        s.skip(i).drop_first() == s.skip(i + 1),
{
    assert(s.skip(i).drop_first() =~= s.skip(i + 1));
}

/// The node carries the named state flag.
pub fn node_has_state(node: &A11yNode, state: &str) -> (r: bool)
    ensures
        r == has_state(*node, state@),
{
    match &node.states {
        Some(v) => {
            let mut i: usize = 0;
            while i < v.len()
                invariant
                    i <= v.len(),
                    node.states == Some(*v),
                    forall|j: int| 0 <= j < i ==> (#[trigger] v@[j])@ != state@,
                decreases v.len() - i,
            {
                if str_eq(v[i].as_str(), state) {
                    assert((v@[i as int])@ == state@);
                    assert(node.states->0@ == v@);
                    return true;
                }
                i += 1;
            }
            false
        },
        None => false,
    }
}

fn node_is_send_button(node: &A11yNode) -> (r: bool)
    ensures
        r == is_send_button(*node),
{
    str_eq(node.role.as_str(), "push-button") && str_eq(node.name.as_str(), "Send(S)")
}

fn node_is_editable_text(node: &A11yNode) -> (r: bool)
    ensures
        r == is_editable_text(*node),
{
    str_eq(node.role.as_str(), "text") && node_has_state(node, "EDITABLE")
}

fn find_send_button_among(s: &Vec<A11yNode>) -> (r: Option<&A11yNode>)
    ensures
        match r {
            Some(n) => first_send_button(s@) == Some(*n),
            None => first_send_button(s@) is None,
        },
{
    let mut i: usize = 0;
    assert(s@.skip(0) =~= s@);
    while i < s.len()
        invariant
            i <= s.len(),
            first_send_button(s@) == first_send_button(s@.skip(i as int)),
        decreases s.len() - i,
    {
        proof {
            lemma_skip_first(s@, i as int);
        }
        if node_is_send_button(&s[i]) {
            return Some(&s[i]);
        }
        i += 1;
    }
    None
}

fn find_editable_text_among(s: &Vec<A11yNode>) -> (r: Option<&A11yNode>)
    ensures
        match r {
            Some(n) => first_editable_text(s@) == Some(*n),
            None => first_editable_text(s@) is None,
        },
{
    let mut i: usize = 0;
    assert(s@.skip(0) =~= s@);
    while i < s.len()
        invariant
            i <= s.len(),
            first_editable_text(s@) == first_editable_text(s@.skip(i as int)),
        decreases s.len() - i,
    {
        proof {
            lemma_skip_first(s@, i as int);
        }
        if node_is_editable_text(&s[i]) {
            return Some(&s[i]);
        }
        i += 1;
    }
    None
}

/// The editor and send button of the first node (depth-first) whose children
/// hold both an editable text field and the "Send(S)" button.
pub fn find_edit_send_pair(node: &A11yNode) -> (r: Option<(&A11yNode, &A11yNode)>)
    ensures
        match r {
            Some((e, b)) => edit_send_pair(*node) == Some((*e, *b)),
            None => edit_send_pair(*node) is None,
        },
    decreases node,
{
    if let Some(children) = &node.children {
        let send_btn = find_send_button_among(children);
        let edit_node = find_editable_text_among(children);
        if let (Some(edit), Some(send)) = (edit_node, send_btn) {
            return Some((edit, send));
        }
        let mut i: usize = 0;
        assert(children@.skip(0) =~= children@);
        while i < children.len()
            invariant
                i <= children.len(),
                node.children == Some(*children),
                edit_send_pair(*node) == edit_send_pair_in(children@.skip(i as int)),
            decreases children.len() - i,
        {
            proof {
                lemma_skip_first(children@, i as int);
                assert(decreases_to!(*node => children@[i as int]));
            }
            if let Some(result) = find_edit_send_pair(&children[i]) {
                return Some(result);
            }
            i += 1;
        }
    }
    None
}

/// Some node of the tree is the send button.
pub fn has_send_button(node: &A11yNode) -> (r: bool)
    ensures
        r == tree_has_send_button(*node),
    decreases node,
{
    if node_is_send_button(node) {
        return true;
    }
    if let Some(children) = &node.children {
        let mut i: usize = 0;
        assert(children@.skip(0) =~= children@);
        while i < children.len()
            invariant
                i <= children.len(),
                node.children == Some(*children),
                !is_send_button(*node),
                tree_has_send_button(*node) == forest_has_send_button(children@.skip(i as int)),
            decreases children.len() - i,
        {
            proof {
                lemma_skip_first(children@, i as int);
                assert(decreases_to!(*node => children@[i as int]));
            }
            if has_send_button(&children[i]) {
                return true;
            }
            i += 1;
        }
    }
    false
}

/// Some node of the tree is named exactly `message`.
pub fn contains_message(node: &A11yNode, message: &str) -> (r: bool)
    ensures
        r == tree_has_name(*node, message@),
    decreases node,
{
    if str_eq(node.name.as_str(), message) {
        return true;
    }
    if let Some(children) = &node.children {
        let mut i: usize = 0;
        assert(children@.skip(0) =~= children@);
        while i < children.len()
            invariant
                i <= children.len(),
                node.children == Some(*children),
                node.name@ != message@,
                tree_has_name(*node, message@) == forest_has_name(
                    children@.skip(i as int),
                    message@,
                ),
            decreases children.len() - i,
        {
            proof {
                lemma_skip_first(children@, i as int);
                assert(decreases_to!(*node => children@[i as int]));
            }
            if contains_message(&children[i], message) {
                return true;
            }
            i += 1;
        }
    }
    false
}

fn has_chat_frame(node: &A11yNode, title: &Vec<char>, title_paren: &Vec<char>) -> (r: bool)
    requires
        title_paren@ == title@.push('('),
    ensures
        r == tree_has_chat_frame(*node, title@),
    decreases node,
{
    let name = chars_of(node.name.as_str());
    if str_eq(node.role.as_str(), "frame") && (chars_eq(&name, title) || chars_have_prefix(
        &name,
        title_paren,
    )) {
        return true;
    }
    if let Some(children) = &node.children {
        let mut i: usize = 0;
        assert(children@.skip(0) =~= children@);
        while i < children.len()
            invariant
                i <= children.len(),
                node.children == Some(*children),
                !is_chat_frame(*node, title@),
                title_paren@ == title@.push('('),
                tree_has_chat_frame(*node, title@) == forest_has_chat_frame(
                    children@.skip(i as int),
                    title@,
                ),
            decreases children.len() - i,
        {
            proof {
                lemma_skip_first(children@, i as int);
                assert(decreases_to!(*node => children@[i as int]));
            }
            if has_chat_frame(&children[i], title, title_paren) {
                return true;
            }
            i += 1;
        }
    }
    false
}

/// The chat window for `chat_name` is open: the name, trimmed, is not empty
/// and some frame of the tree is titled with it (exactly, or followed by an
/// opening bracket such as a member count).
pub fn opened_chat_matches(node: &A11yNode, chat_name: &str) -> (r: bool)
    ensures
        r == opened_chat_spec(*node, chat_name@),
{
    let expected = trim_str(chat_name);
    if expected.len() == 0 {
        return false;
    }
    let mut with_paren = expected.clone();
    with_paren.push('(');
    has_chat_frame(node, &expected, &with_paren)
}

fn chat_list_item_search(node: &A11yNode, under_chats: bool) -> (r: Option<&A11yNode>)
    ensures
        match r {
            Some(n) => chat_list_item(*node, under_chats) == Some(*n),
            None => chat_list_item(*node, under_chats) is None,
        },
    decreases node,
{
    if under_chats && str_eq(node.role.as_str(), "list-item") {
        return Some(node);
    }
    if let Some(children) = &node.children {
        let is_chats = str_eq(node.role.as_str(), "list") && str_eq(node.name.as_str(), "Chats");
        let mut i: usize = 0;
        assert(children@.skip(0) =~= children@);
        while i < children.len()
            invariant
                i <= children.len(),
                node.children == Some(*children),
                !(under_chats && node.role@ == "list-item"@),
                is_chats == (node.role@ == "list"@ && node.name@ == "Chats"@),
                chat_list_item(*node, under_chats) == chat_list_item_in(
                    children@.skip(i as int),
                    is_chats,
                ),
            decreases children.len() - i,
        {
            proof {
                lemma_skip_first(children@, i as int);
                assert(decreases_to!(*node => children@[i as int]));
            }
            if let Some(found) = chat_list_item_search(&children[i], is_chats) {
                return Some(found);
            }
            i += 1;
        }
    }
    None
}

fn half_round(n: i64) -> (r: i64)
    requires
        -0x4000_0000_0000 <= n <= 0x4000_0000_0000,
    ensures
        r == half_away_from_zero(n as int),
{
    if n >= 0 {
        (n + 1) / 2
    } else {
        -((-n + 1) / 2)
    }
}

/// The rounded centre of the first chat in the chat list, where the plan
/// clicks to open a chat.
pub fn chat_list_click_point(a11y: &A11yNode) -> (r: Option<(i64, i64)>)
    ensures
        r == match chat_list_item(*a11y, false) {
            Some(item) => match item.bounds {
                Some(b) => Some(
                    (center(b).0 as i64, center(b).1 as i64),
                ),
                None => None,
            },
            None => None,
        },
{
    match chat_list_item_search(a11y, false) {
        Some(item) => match item.bounds {
            Some(b) => {
                let cx = half_round(2 * (b.x as i64) + (b.width as i64));
                let cy = half_round(2 * (b.y as i64) + (b.height as i64));
                Some((cx, cy))
            },
            None => None,
        },
        None => None,
    }
}

/// Trimming the chat name first changes nothing: a search that trims the
/// name again at every node answers as one that trims it once.
pub proof fn law_opened_chat_trim_insensitive(node: A11yNode, chat_name: Seq<char>)
    ensures
        opened_chat_spec(node, trim(chat_name)) == opened_chat_spec(node, chat_name),
{
    crate::text::lemma_trim_idempotent(chat_name);
}

proof fn lemma_tree_has_name_any(node: A11yNode, m: Seq<char>)
    ensures
        tree_has_name(node, m) == any_node(node, named(m)),
    decreases node, 1int,
{
    if let Some(c) = node.children {
        lemma_forest_has_name_any(c@, m);
    }
}

proof fn lemma_forest_has_name_any(s: Seq<A11yNode>, m: Seq<char>)
    ensures
        forest_has_name(s, m) == any_node_in(s, named(m)),
    decreases s, 0int,
{
    if s.len() > 0 {
        lemma_tree_has_name_any(s[0], m);
        lemma_forest_has_name_any(s.drop_first(), m);
    }
}

/// Looking for a message finds it exactly when some node of the tree is
/// named exactly the message.
pub proof fn law_message_search_finds_any_node(node: A11yNode, message: Seq<char>)
    ensures
        tree_has_name(node, message) == any_node(node, named(message)),
{
    lemma_tree_has_name_any(node, message);
}

proof fn lemma_chat_frame_node(node: A11yNode, t: Seq<char>)
    ensures
        is_chat_frame(node, t) == frame_titled(t)(node),
{
    let np = t.push('(');
    if has_prefix(node.name@, np) {
        assert(np.len() == t.len() + 1);
        assert(node.name@.subrange(0, t.len() as int) =~= t) by {
            assert forall|i: int| 0 <= i < t.len() implies node.name@.subrange(0, t.len() as int)[i]
                == t[i] by {
                assert(np[i] == t[i]);
                assert(node.name@[i] == np[i]);
            }
        }
        assert(node.name@[t.len() as int] == np[t.len() as int]);
    }
    if node.name@.len() > t.len() && node.name@.subrange(0, t.len() as int) == t
        && node.name@[t.len() as int] == '(' {
        assert(node.name@.subrange(0, np.len() as int) =~= np);
    }
}

proof fn lemma_tree_has_chat_frame_any(node: A11yNode, t: Seq<char>)
    ensures
        tree_has_chat_frame(node, t) == any_node(node, frame_titled(t)),
    decreases node, 1int,
{
    lemma_chat_frame_node(node, t);
    if let Some(c) = node.children {
        lemma_forest_has_chat_frame_any(c@, t);
    }
}

proof fn lemma_forest_has_chat_frame_any(s: Seq<A11yNode>, t: Seq<char>)
    ensures
        forest_has_chat_frame(s, t) == any_node_in(s, frame_titled(t)),
    decreases s, 0int,
{
    if s.len() > 0 {
        lemma_tree_has_chat_frame_any(s[0], t);
        lemma_forest_has_chat_frame_any(s.drop_first(), t);
    }
}

/// The open chat is taken for the named one exactly when the trimmed name is
/// not empty and some node of role `frame` is titled with it, alone or
/// followed by `(`: list items, or frames of other chats, never count.
pub proof fn law_opened_chat_needs_titled_frame(node: A11yNode, chat_name: Seq<char>)
    ensures
        opened_chat_spec(node, chat_name) == (trim(chat_name).len() > 0 && any_node(
            node,
            frame_titled(trim(chat_name)),
        )),
{
    lemma_tree_has_chat_frame_any(node, trim(chat_name));
}


} // verus!
