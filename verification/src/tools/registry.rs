//! A registry of tools, each found again by its name.

use vstd::prelude::*;

use crate::text::{chars_eq, chars_of};
use crate::tools::{tool_name, StandardTool, Tool};

verus! {

/// Whether no two of `tools` share a name.
pub open spec fn names_unique<T: Tool>(tools: Seq<T>) -> bool {
    forall|i: int, j: int|
        0 <= i < tools.len() && 0 <= j < tools.len() && i != j ==> #[trigger] tools[i].name_view()
            != #[trigger] tools[j].name_view()
}

/// Whether some of `tools` is named `name`.
pub open spec fn has_tool_named<T: Tool>(tools: Seq<T>, name: Seq<char>) -> bool {
    exists|i: int| 0 <= i < tools.len() && #[trigger] tools[i].name_view() == name
}

/// The registry after registering `tool` in one holding `tools`: a tool of
/// the same name is replaced in its place; otherwise `tool` is added last.
pub open spec fn registered<T: Tool>(tools: Seq<T>, tool: T, result: Seq<T>) -> bool {
    if has_tool_named(tools, tool.name_view()) {
        forall|i: int|
            0 <= i < tools.len() && #[trigger] tools[i].name_view() == tool.name_view() ==> result
                == tools.update(i, tool)
    } else {
        result == tools.push(tool)
    }
}

/// Tools offered under their names; each name is registered at most once.
pub struct ToolRegistry<T: Tool> {
    tools: Vec<T>,
}

impl<T: Tool> ToolRegistry<T> {
    /// The registered tools, in the order in which their names were first
    /// registered.
    pub closed spec fn contents(self) -> Seq<T> {
        self.tools@
    }

    /// No two registered tools share a name.
    pub open spec fn wf(self) -> bool {
        names_unique(self.contents())
    }

    /// An empty registry.
    pub fn new() -> (r: ToolRegistry<T>)
        ensures
            r.wf(),
            r.contents() == Seq::<T>::empty(),
    {
        ToolRegistry { tools: Vec::new() }
    }

    /// The position of the tool named `name`, if one is registered.
    fn position(&self, name: &str) -> (r: Option<usize>)
        requires
            self.wf(),
        ensures
            match r {
                Some(i) => i < self.contents().len() && self.contents()[i as int].name_view()
                    == name@,
                None => !has_tool_named(self.contents(), name@),
            },
    {
        let wanted = chars_of(name);
        let mut i: usize = 0;
        while i < self.tools.len()
            invariant
                i <= self.tools@.len(),
                wanted@ == name@,
                forall|k: int| 0 <= k < i ==> #[trigger] self.tools@[k].name_view() != name@,
            decreases self.tools@.len() - i,
        {
            let here = chars_of(self.tools[i].name());
            if chars_eq(&here, &wanted) {
                return Some(i);
            }
            i = i + 1;
        }
        None
    }

    /// Registers `tool` under its name, replacing a tool of the same name.
    pub fn register(&mut self, tool: T)
        requires
            old(self).wf(),
        ensures
            final(self).wf(),
            registered(old(self).contents(), tool, final(self).contents()),
    {
        let ghost before = self.tools@;
        let ghost name = tool.name_view();
        match self.position(tool.name()) {
            Some(i) => {
                self.tools.set(i, tool);
                assert forall|k: int|
                    0 <= k < before.len() && #[trigger] before[k].name_view() == name implies self.tools@
                    == before.update(k, tool) by {
                    if k != i {
                        assert(before[k].name_view() != before[i as int].name_view());
                    }
                }
                assert forall|a: int, b: int|
                    0 <= a < self.tools@.len() && 0 <= b < self.tools@.len() && a != b implies #[trigger] self.tools@[a].name_view()
                    != #[trigger] self.tools@[b].name_view() by {
                    if a != i && b != i {
                        assert(before[a].name_view() != before[b].name_view());
                    } else if a == i {
                        assert(before[b].name_view() != before[a].name_view());
                    } else {
                        assert(before[a].name_view() != before[b].name_view());
                    }
                }
            },
            None => {
                self.tools.push(tool);
                assert forall|a: int, b: int|
                    0 <= a < self.tools@.len() && 0 <= b < self.tools@.len() && a != b implies #[trigger] self.tools@[a].name_view()
                    != #[trigger] self.tools@[b].name_view() by {
                    if a < before.len() && b < before.len() {
                        assert(before[a].name_view() != before[b].name_view());
                    } else if a < before.len() {
                        assert(before[a].name_view() != name);
                    } else {
                        assert(before[b].name_view() != name);
                    }
                }
            },
        }
    }

    /// The tool registered under `name`, if any.
    pub fn get(&self, name: &str) -> (r: Option<&T>)
        requires
            self.wf(),
        ensures
            match r {
                Some(t) => exists|i: int|
                    0 <= i < self.contents().len() && self.contents()[i] == *t && #[trigger] self.contents()[i].name_view()
                        == name@,
                None => !has_tool_named(self.contents(), name@),
            },
    {
        match self.position(name) {
            Some(i) => Some(&self.tools[i]),
            None => None,
        }
    }

    /// How many tools are registered.
    pub fn len(&self) -> (r: usize)
        ensures
            r == self.contents().len(),
    {
        self.tools.len()
    }
}

impl ToolRegistry<StandardTool> {
    /// The registry of the six standard tools, in the order shell,
    /// read_file, edit_file, calculator, search, todo.
    pub fn standard() -> (r: ToolRegistry<StandardTool>)
        ensures
            r.wf(),
            r.contents() == seq![
                StandardTool::Shell,
                StandardTool::ReadFile,
                StandardTool::EditFile,
                StandardTool::Calculator,
                StandardTool::Search,
                StandardTool::Todo,
            ],
    {
        let r = ToolRegistry { tools: StandardTool::all() };
        proof {
            reveal_strlit("shell");
            reveal_strlit("read_file");
            reveal_strlit("edit_file");
            reveal_strlit("calculator");
            reveal_strlit("search");
            reveal_strlit("todo");
            let ts = r.tools@;
            assert forall|a: int, b: int|
                0 <= a < ts.len() && 0 <= b < ts.len() && a != b implies #[trigger] ts[a].name_view()
                != #[trigger] ts[b].name_view() by {
                let na = tool_name(ts[a]);
                let nb = tool_name(ts[b]);
                if na.len() == nb.len() {
                    assert(na[0] != nb[0]);
                }
            }
        }
        r
    }
}

} // verus!
