//! Data shared by the menus and the task runner.

use crate::scan::same_text;
use vstd::prelude::*;

verus! {

/// What the main menu hands back to its caller.
#[derive(Debug, Clone)]
pub enum MenuAction {
    /// Show the menu again.
    Continue,
    /// Leave the program.
    Exit,
    /// Run the entry at this index.
    ExecuteSingle(usize),
    /// Run the entries at these indices, in this order.
    ExecuteMultiple(Vec<usize>),
}

/// One entry of the main menu.
#[derive(Debug, Clone)]
pub struct MenuItem {
    pub id: usize,
    pub name: &'static str,
    pub description: &'static str,
    /// The task asks for parameters before it runs.
    pub requires_params: bool,
}

impl MenuItem {
    /// An entry with the given id, name, description and need of parameters.
    pub fn new(
        id: usize,
        name: &'static str,
        description: &'static str,
        requires_params: bool,
    ) -> (r: MenuItem)
        ensures
            r.id == id,
            r.name@ == name@,
            r.description@ == description@,
            r.requires_params == requires_params,
    {
        MenuItem { id, name, description, requires_params }
    }
}

/// One parameter of a task.
#[derive(Debug, Clone)]
pub struct Param {
    pub key: String,
    pub value: String,
}

/// A menu entry together with the parameters collected for it. The
/// parameters keep the order in which they were collected, and no key
/// occurs twice.
#[derive(Debug, Clone)]
pub struct TaskConfig {
    pub item: MenuItem,
    pub params: Vec<Param>,
}

/// The parameters as a list of pairs of plain texts.
pub open spec fn params_view(params: Seq<Param>) -> Seq<(Seq<char>, Seq<char>)> {
    params.map_values(|p: Param| (p.key@, p.value@))
}

/// Position of the parameter named `key`; the length where there is none.
pub open spec fn position_of(params: Seq<(Seq<char>, Seq<char>)>, key: Seq<char>) -> int
    decreases params.len(),
{
    if params.len() == 0 {
        0
    } else if params[0].0 == key {
        0
    } else {
        1 + position_of(params.drop_first(), key)
    }
}

/// The parameters with `key` set to `value`: in place where the key is
/// there already, at the end where it is new.
pub open spec fn with_param(
    params: Seq<(Seq<char>, Seq<char>)>,
    key: Seq<char>,
    value: Seq<char>,
) -> Seq<(Seq<char>, Seq<char>)> {
    let at = position_of(params, key);
    if 0 <= at < params.len() {
        params.update(at, (key, value))
    } else {
        params.push((key, value))
    }
}

impl TaskConfig {
    /// The value of the parameter named `key`, if it is set.
    pub open spec fn get_spec(&self, key: Seq<char>) -> Option<Seq<char>> {
        let view = params_view(self.params@);
        if position_of(view, key) < view.len() {
            Some(view[position_of(view, key)].1)
        } else {
            None
        }
    }

    /// A task without parameters.
    pub fn new(item: MenuItem) -> (r: TaskConfig)
        ensures
            r.item == item,
            r.params@.len() == 0,
    {
        TaskConfig { item, params: Vec::new() }
    }

    /// The value of the parameter named `key`, if it is set.
    pub fn get(&self, key: &str) -> (r: Option<&String>)
        ensures
            r is Some <==> self.get_spec(key@) is Some,
            r is Some ==> r->0@ == self.get_spec(key@)->0,
    {
        let ghost view = params_view(self.params@);
        let mut i: usize = 0;
        proof {
            assert(view.skip(0) =~= view);
        }
        while i < self.params.len()
            invariant
                i <= self.params.len(),
                view == params_view(self.params@),
                position_of(view, key@) == i + position_of(view.skip(i as int), key@),
            decreases self.params.len() - i,
        {
            proof {
                let rest = view.skip(i as int);
                assert(rest[0] == view[i as int]);
                assert(rest.drop_first() =~= view.skip(i + 1));
            }
            if same_text(self.params[i].key.as_str(), key) {
                return Some(&self.params[i].value);
            }
            i = i + 1;
        }
        proof {
            assert(view.skip(self.params.len() as int) =~= Seq::empty());
        }
        None
    }

    /// Sets the parameter named `key` to `value`.
    pub fn insert(&mut self, key: String, value: String)
        ensures
            final(self).item == old(self).item,
            params_view(final(self).params@) == with_param(
                params_view(old(self).params@),
                key@,
                value@,
            ),
    {
        let ghost view = params_view(self.params@);
        let mut i: usize = 0;
        proof {
            assert(view.skip(0) =~= view);
        }
        while i < self.params.len()
            invariant
                i <= self.params.len(),
                *self == *old(self),
                view == params_view(self.params@),
                position_of(view, key@) == i + position_of(view.skip(i as int), key@),
            decreases self.params.len() - i,
        {
            proof {
                let rest = view.skip(i as int);
                assert(rest[0] == view[i as int]);
                assert(rest.drop_first() =~= view.skip(i + 1));
            }
            if same_text(self.params[i].key.as_str(), key.as_str()) {
                self.params.set(i, Param { key, value });
                assert(params_view(self.params@) =~= view.update(i as int, (key@, value@)));
                return ;
            }
            i = i + 1;
        }
        proof {
            assert(view.skip(self.params.len() as int) =~= Seq::empty());
        }
        self.params.push(Param { key, value });
        assert(params_view(self.params@) =~= view.push((key@, value@)));
    }
}

} // verus!
