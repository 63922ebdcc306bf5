//! The virtual element node.

use super::key::Key;
use super::vlist::VList;
use super::vnode::VNode;
use vstd::prelude::*;

verus! {

/// Whether `tag` names a void element: one that can hold neither children
/// nor a closing tag.
pub open spec fn is_void_element(tag: Seq<char>) -> bool {
    ||| tag == "area"@
    ||| tag == "base"@
    ||| tag == "br"@
    ||| tag == "col"@
    ||| tag == "embed"@
    ||| tag == "hr"@
    ||| tag == "img"@
    ||| tag == "input"@
    ||| tag == "link"@
    ||| tag == "meta"@
    ||| tag == "param"@
    ||| tag == "source"@
    ||| tag == "track"@
    ||| tag == "wbr"@
}

/// A textarea is no void element, and no input.
pub proof fn lemma_textarea_is_not_void()
    ensures
        !is_void_element("textarea"@),
        "textarea"@ != "input"@,
{
    reveal_strlit("textarea");
    reveal_strlit("area");
    reveal_strlit("base");
    reveal_strlit("br");
    reveal_strlit("col");
    reveal_strlit("embed");
    reveal_strlit("hr");
    reveal_strlit("img");
    reveal_strlit("input");
    reveal_strlit("link");
    reveal_strlit("meta");
    reveal_strlit("param");
    reveal_strlit("source");
    reveal_strlit("track");
    reveal_strlit("wbr");
    assert("textarea"@.len() == 8);
    assert("area"@.len() == 4 && "base"@.len() == 4 && "br"@.len() == 2 && "col"@.len() == 3);
    assert("embed"@.len() == 5 && "hr"@.len() == 2 && "img"@.len() == 3 && "input"@.len() == 5);
    assert("link"@.len() == 4 && "meta"@.len() == 4 && "param"@.len() == 5);
    assert("source"@.len() == 6 && "track"@.len() == 5 && "wbr"@.len() == 3);
}

/// Whether two strings hold the same text.
pub fn same_text(a: &str, b: &str) -> (same: bool)
    ensures
        same == (a@ == b@),
{
    a.to_owned() == b.to_owned()
}

/// Tells whether `tag` names a void element.
pub fn check_void_element(tag: &str) -> (void: bool)
    ensures
        void == is_void_element(tag@),
{
    same_text(tag, "area") || same_text(tag, "base") || same_text(tag, "br") || same_text(
        tag,
        "col",
    ) || same_text(tag, "embed") || same_text(tag, "hr") || same_text(tag, "img") || same_text(
        tag,
        "input",
    ) || same_text(tag, "link") || same_text(tag, "meta") || same_text(tag, "param")
        || same_text(tag, "source") || same_text(tag, "track") || same_text(tag, "wbr")
}

/// Why a node could not be built.
#[derive(Clone, Copy, Debug, PartialEq, Eq, Structural)]
pub enum NodeError {
    /// Children were given to a void element.
    VoidElementWithChildren,
    /// Children were given to a textarea, whose content is its value.
    TextareaWithChildren,
}

/// One attribute of an element.
#[derive(Clone, Debug)]
pub struct Attribute {
    /// The name, written as it is.
    pub name: String,
    /// The value, not yet escaped.
    pub value: String,
}

/// The attributes of an element: a mapping from names to values that keeps
/// the order in which the names were first set.
#[derive(Clone, Debug)]
pub struct Attributes {
    /// The attributes in the order in which their names were first set.
    pub entries: Vec<Attribute>,
}

impl Attributes {
    /// The position of `name` among the first `upto` entries, if it is there.
    pub open spec fn position(self, name: Seq<char>, upto: int) -> Option<int>
        decreases upto,
    {
        if upto <= 0 || upto > self.entries@.len() {
            None
        } else if self.position(name, upto - 1) is Some {
            self.position(name, upto - 1)
        } else if self.entries@[upto - 1].name@ == name {
            Some(upto - 1)
        } else {
            None
        }
    }

    /// No name occurs twice.
    pub open spec fn well_formed(self) -> bool {
        forall|i: int, j: int|
            0 <= i < j < self.entries@.len() ==> #[trigger] self.entries@[i].name@
                != #[trigger] self.entries@[j].name@
    }

    /// The value that `name` is mapped to.
    pub open spec fn value_of(self, name: Seq<char>) -> Option<Seq<char>> {
        match self.position(name, self.entries@.len() as int) {
            Some(i) => Some(self.entries@[i].value@),
            None => None,
        }
    }

    /// What `position` finds is the first entry named `name`, and it
    /// finds none only where no entry is named so.
    pub proof fn lemma_position(self, name: Seq<char>, upto: int)
        requires
            0 <= upto <= self.entries@.len(),
        ensures
            self.position(name, upto) matches Some(i) ==> 0 <= i < upto && self.entries@[i].name@
                == name && forall|j: int| 0 <= j < i ==> self.entries@[j].name@ != name,
            self.position(name, upto) is None ==> forall|j: int|
                0 <= j < upto ==> self.entries@[j].name@ != name,
        decreases upto,
    {
        if upto > 0 {
            self.lemma_position(name, upto - 1);
        }
    }

    /// No attributes.
    pub fn new() -> (attributes: Attributes)
        ensures
            attributes.entries@.len() == 0,
            attributes.well_formed(),
    {
        Attributes { entries: Vec::new() }
    }

    /// The index of the entry named `name`, if there is one.
    pub fn find(&self, name: &str) -> (found: Option<usize>)
        ensures
            found matches Some(i) ==> i < self.entries@.len() && self.position(
                name@,
                self.entries@.len() as int,
            ) == Some(i as int),
            found is None ==> self.position(name@, self.entries@.len() as int) is None,
    {
        let mut i: usize = 0;
        while i < self.entries.len()
            invariant
                i <= self.entries@.len(),
                self.position(name@, i as int) is None,
            decreases self.entries@.len() - i,
        {
            if same_text(self.entries[i].name.as_str(), name) {
                assert(self.position(name@, i + 1) == Some(i as int));
                proof {
                    self.lemma_position_extends(name@, i + 1, self.entries@.len() as int);
                }
                return Some(i);
            }
            i += 1;
        }
        None
    }

    /// The first entry named `name` is the one that `position` gives.
    pub proof fn lemma_position_is(self, name: Seq<char>, i: int)
        requires
            0 <= i < self.entries@.len(),
            self.entries@[i].name@ == name,
            forall|j: int| 0 <= j < i ==> self.entries@[j].name@ != name,
        ensures
            self.position(name, self.entries@.len() as int) == Some(i),
    {
        self.lemma_position(name, self.entries@.len() as int);
    }

    proof fn lemma_position_extends(self, name: Seq<char>, from: int, upto: int)
        requires
            0 <= from <= upto <= self.entries@.len(),
            self.position(name, from) is Some,
        ensures
            self.position(name, upto) == self.position(name, from),
        decreases upto - from,
    {
        if from < upto {
            self.lemma_position_extends(name, from, upto - 1);
        }
    }

    /// The value of the attribute named `name`.
    pub fn get(&self, name: &str) -> (value: Option<&String>)
        ensures
            match value {
                Some(v) => self.value_of(name@) == Some(v@),
                None => self.value_of(name@) is None,
            },
    {
        match self.find(name) {
            Some(i) => Some(&self.entries[i].value),
            None => None,
        }
    }

    /// Maps `name` to `value`: the entry named `name` gets the new value
    /// where it stands, and a name that is new comes last.
    pub fn set(&mut self, name: String, value: String)
        ensures
            old(self).well_formed() ==> final(self).well_formed(),
            final(self).value_of(name@) == Some(value@),
            match old(self).position(name@, old(self).entries@.len() as int) {
                Some(i) => final(self).entries@ == old(self).entries@.update(
                    i,
                    Attribute { name: old(self).entries@[i].name, value },
                ),
                None => final(self).entries@ == old(self).entries@.push(Attribute { name, value }),
            },
    {
        proof {
            self.lemma_position(name@, self.entries@.len() as int);
        }
        match self.find(&name) {
            Some(i) => {
                let ghost before = *self;
                let mut kept = Attribute { name: String::new(), value };
                std::mem::swap(&mut self.entries[i].name, &mut kept.name);
                self.entries.set(i, kept);
                proof {
                    assert(self.entries@ =~= before.entries@.update(
                        i as int,
                        Attribute { name: before.entries@[i as int].name, value },
                    ));
                    self.lemma_position_is(name@, i as int);
                }
            },
            None => {
                self.entries.push(Attribute { name, value });
                proof {
                    self.lemma_position_is(name@, self.entries@.len() - 1);
                }
            },
        }
    }

    /// How many attributes there are.
    pub fn len(&self) -> (n: usize)
        ensures
            n == self.entries@.len(),
    {
        self.entries.len()
    }
}


/// What sets the three families of elements apart.
#[derive(Debug)]
pub enum VTagInner {
    /// An `<input>`: a void element whose value and checked state are kept
    /// apart from its other attributes.
    Input { value: Option<String>, checked: bool },
    /// A `<textarea>`: its value is its text content.
    Textarea { value: Option<String> },
    /// Any other element, with its name and its children.
    Other { tag: String, children: VList },
}

/// An element node.
#[derive(Debug)]
pub struct VTag {
    /// The family of the element and what belongs to it alone.
    pub inner: VTagInner,
    /// The attributes.
    pub attributes: Attributes,
    /// The key of the element among its siblings.
    pub key: Option<Key>,
}

impl VTag {
    /// The name of the element.
    pub open spec fn spec_tag(self) -> Seq<char> {
        match self.inner {
            VTagInner::Input { .. } => "input"@,
            VTagInner::Textarea { .. } => "textarea"@,
            VTagInner::Other { tag, .. } => tag@,
        }
    }

    /// The children of the element; an input and a textarea have none.
    pub open spec fn spec_children(self) -> Seq<VNode> {
        match self.inner {
            VTagInner::Other { children, .. } => children.children@,
            _ => Seq::empty(),
        }
    }

    /// The value of an input or a textarea.
    pub open spec fn spec_value(self) -> Option<Seq<char>> {
        match self.inner {
            VTagInner::Input { value: Some(v), .. } => Some(v@),
            VTagInner::Textarea { value: Some(v) } => Some(v@),
            _ => None,
        }
    }

    /// Whether this is an input that is checked.
    pub open spec fn spec_checked(self) -> bool {
        match self.inner {
            VTagInner::Input { checked, .. } => checked,
            _ => false,
        }
    }

    /// A void element holds no children, and no attribute name occurs twice.
    pub open spec fn well_formed(self) -> bool {
        &&& is_void_element(self.spec_tag()) ==> self.spec_children().len() == 0
        &&& self.attributes.well_formed()
    }

    /// Creates an element named `tag` without attributes or children.
    pub fn new(tag: String) -> (node: VTag)
        ensures
            node.well_formed(),
            node.spec_tag() == tag@,
            node.spec_children().len() == 0,
            node.spec_value() is None,
            !node.spec_checked(),
            node.attributes.entries@.len() == 0,
            node.key is None,
            tag@ == "input"@ <==> node.inner is Input,
            tag@ == "textarea"@ <==> node.inner is Textarea,
    {
        proof {
            lemma_textarea_is_not_void();
        }
        let inner = if same_text(tag.as_str(), "input") {
            VTagInner::Input { value: None, checked: false }
        } else if same_text(tag.as_str(), "textarea") {
            VTagInner::Textarea { value: None }
        } else {
            VTagInner::Other { tag, children: VList::new() }
        };
        VTag { inner, attributes: Attributes::new(), key: None }
    }

    /// Creates an element named `tag` that holds `children`. A void element
    /// with children is rejected, and so are children for an input or a
    /// textarea, which keep their content as a value.
    pub fn with_children(tag: String, children: VList) -> (made: Result<VTag, NodeError>)
        ensures
            made is Err <==> children.children@.len() > 0 && (is_void_element(tag@) || tag@
                == "textarea"@),
            made matches Err(e) ==> e == (if is_void_element(tag@) {
                NodeError::VoidElementWithChildren
            } else {
                NodeError::TextareaWithChildren
            }),
            made matches Ok(node) ==> {
                &&& node.well_formed()
                &&& node.spec_tag() == tag@
                &&& node.spec_children() == children.children@
                &&& node.spec_value() is None
                &&& !node.spec_checked()
                &&& node.attributes.entries@.len() == 0
                &&& node.key is None
            },
    {
        let childless = children.children.len() == 0;
        if childless {
            let node = VTag::new(tag);
            assert(node.spec_children() =~= children.children@);
            Ok(node)
        } else if check_void_element(tag.as_str()) {
            Err(NodeError::VoidElementWithChildren)
        } else if same_text(tag.as_str(), "textarea") {
            Err(NodeError::TextareaWithChildren)
        } else {
            Ok(VTag { inner: VTagInner::Other { tag, children }, attributes: Attributes::new(), key: None })
        }
    }

    /// Adds `child` after the children that the element holds. An element
    /// that cannot hold children is left as it is and the child is handed
    /// back in the error.
    pub fn add_child(&mut self, child: VNode) -> (added: Result<(), NodeError>)
        ensures
            old(self).well_formed() ==> final(self).well_formed(),
            added is Err <==> is_void_element(old(self).spec_tag()) || old(self).inner is Textarea,
            added matches Err(e) ==> e == (if is_void_element(old(self).spec_tag()) {
                NodeError::VoidElementWithChildren
            } else {
                NodeError::TextareaWithChildren
            }),
            added is Err ==> *final(self) == *old(self),
            added is Ok ==> {
                &&& final(self).spec_children() == old(self).spec_children().push(child)
                &&& final(self).spec_tag() == old(self).spec_tag()
                &&& final(self).attributes == old(self).attributes
                &&& final(self).key == old(self).key
            },
    {
        let void = check_void_element(self.tag());
        match &mut self.inner {
            VTagInner::Other { children, .. } => {
                if void {
                    Err(NodeError::VoidElementWithChildren)
                } else {
                    children.children.push(child);
                    Ok(())
                }
            },
            VTagInner::Input { .. } => Err(NodeError::VoidElementWithChildren),
            VTagInner::Textarea { .. } => {
                proof {
                    lemma_textarea_is_not_void();
                }
                Err(NodeError::TextareaWithChildren)
            },
        }
    }

    /// The name of the element.
    pub fn tag(&self) -> (name: &str)
        ensures
            name@ == self.spec_tag(),
    {
        match &self.inner {
            VTagInner::Input { .. } => "input",
            VTagInner::Textarea { .. } => "textarea",
            VTagInner::Other { tag, .. } => tag.as_str(),
        }
    }

    /// The value of an input or a textarea.
    pub fn value(&self) -> (value: Option<&String>)
        ensures
            match value {
                Some(v) => self.spec_value() == Some(v@),
                None => self.spec_value() is None,
            },
    {
        match &self.inner {
            VTagInner::Input { value, .. } => value.as_ref(),
            VTagInner::Textarea { value } => value.as_ref(),
            VTagInner::Other { .. } => None,
        }
    }

    /// Sets the value of an input or a textarea; any other element is left
    /// as it is.
    pub fn set_value(&mut self, value: Option<String>)
        ensures
            match old(self).inner {
                VTagInner::Input { checked, .. } => final(self).inner == (VTagInner::Input {
                    value,
                    checked,
                }),
                VTagInner::Textarea { .. } => final(self).inner == (VTagInner::Textarea { value }),
                VTagInner::Other { .. } => final(self).inner == old(self).inner,
            },
            final(self).attributes == old(self).attributes,
            final(self).key == old(self).key,
    {
        match &mut self.inner {
            VTagInner::Input { value: held, .. } => {
                *held = value;
            },
            VTagInner::Textarea { value: held } => {
                *held = value;
            },
            VTagInner::Other { .. } => {},
        }
    }

    /// Whether this is an input that is checked.
    pub fn checked(&self) -> (checked: bool)
        ensures
            checked == self.spec_checked(),
    {
        match &self.inner {
            VTagInner::Input { checked, .. } => *checked,
            _ => false,
        }
    }

    /// Sets the checked state of an input; any other element is left as it
    /// is.
    pub fn set_checked(&mut self, checked: bool)
        ensures
            match old(self).inner {
                VTagInner::Input { value, .. } => final(self).inner == (VTagInner::Input {
                    value,
                    checked,
                }),
                _ => final(self).inner == old(self).inner,
            },
            final(self).attributes == old(self).attributes,
            final(self).key == old(self).key,
    {
        match &mut self.inner {
            VTagInner::Input { checked: held, .. } => {
                *held = checked;
            },
            _ => {},
        }
    }

    /// Maps the attribute `name` to `value`.
    pub fn add_attribute(&mut self, name: String, value: String)
        ensures
            old(self).well_formed() ==> final(self).well_formed(),
            final(self).inner == old(self).inner,
            final(self).key == old(self).key,
            final(self).attributes.value_of(name@) == Some(value@),
            match old(self).attributes.position(name@, old(self).attributes.entries@.len() as int) {
                Some(i) => final(self).attributes.entries@ == old(self).attributes.entries@.update(
                    i,
                    Attribute { name: old(self).attributes.entries@[i].name, value },
                ),
                None => final(self).attributes.entries@ == old(self).attributes.entries@.push(
                    Attribute { name, value },
                ),
            },
    {
        self.attributes.set(name, value);
    }
}

} // verus!
