//! Keeping the list of tools up to date while modules come and go.

use crate::async_task_bridge;
use crate::factory::{self, MCPServerFactory};
use crate::json::Json;
use crate::modules::{self, ModuleDescriptor};
use crate::text;
use crate::types::{Tool, ToolView};
use vstd::prelude::*;

verus! {

/// Tools, by module.
pub struct ToolTable {
    entries: Vec<(String, Tool)>,
}

/// The tool at `i` is that of the module `module_id`.
spec fn stands_at(entries: Seq<(String, Tool)>, module_id: Seq<char>, i: int) -> bool {
    0 <= i < entries.len() && entries[i].0@ == module_id
}

/// No module stands at two places.
spec fn once(entries: Seq<(String, Tool)>) -> bool {
    forall|i: int, j: int|
        0 <= i < j < entries.len() ==> (#[trigger] entries[i]).0@ != (#[trigger] entries[j]).0@
}

/// The tools by module.
spec fn table(entries: Seq<(String, Tool)>) -> Map<Seq<char>, ToolView> {
    Map::new(
        |module_id: Seq<char>| exists|i: int| stands_at(entries, module_id, i),
        |module_id: Seq<char>| entries[choose|i: int| stands_at(entries, module_id, i)].1@,
    )
}

proof fn lemma_table_at(entries: Seq<(String, Tool)>, i: int)
    requires
        once(entries),
        0 <= i < entries.len(),
    ensures
        table(entries).contains_key(entries[i].0@),
        table(entries)[entries[i].0@] == entries[i].1@,
{
    let module_id = entries[i].0@;
    assert(stands_at(entries, module_id, i));
    let j = choose|j: int| stands_at(entries, module_id, j);
    if i < j {
        assert(entries[i].0@ != entries[j].0@);
    } else if j < i {
        assert(entries[j].0@ != entries[i].0@);
    }
}

proof fn lemma_table_len(entries: Seq<(String, Tool)>)
    requires
        once(entries),
    ensures
        table(entries).dom().finite(),
        table(entries).len() == entries.len(),
    decreases entries.len(),
{
    if entries.len() == 0 {
        assert(table(entries).dom() =~= Set::<Seq<char>>::empty());
    } else {
        let rest = entries.drop_last();
        let last = entries.last().0@;
        lemma_table_len(rest);
        assert forall|id: Seq<char>| #[trigger] table(entries).dom().contains(id) implies table(
            rest,
        ).dom().insert(last).contains(id) by {
            let i = choose|i: int| stands_at(entries, id, i);
            assert(stands_at(entries, id, i));
            if i < rest.len() {
                assert(stands_at(rest, id, i));
            }
        }
        assert forall|id: Seq<char>| #[trigger]
            table(rest).dom().insert(last).contains(id) implies table(entries).dom().contains(
            id,
        ) by {
            if id == last {
                assert(stands_at(entries, id, entries.len() - 1));
            } else {
                let i = choose|i: int| stands_at(rest, id, i);
                assert(stands_at(rest, id, i));
                assert(stands_at(entries, id, i));
            }
        }
        assert(table(entries).dom() =~= table(rest).dom().insert(last));
        if table(rest).dom().contains(last) {
            let i = choose|i: int| stands_at(rest, last, i);
            assert(stands_at(rest, last, i));
            assert(entries[i].0@ != entries[entries.len() - 1].0@);
        }
    }
}

impl View for ToolTable {
    type V = Map<Seq<char>, ToolView>;

    closed spec fn view(&self) -> Map<Seq<char>, ToolView> {
        table(self.entries@)
    }
}

impl ToolTable {
    #[verifier::type_invariant]
    spec fn modules_once(self) -> bool {
        once(self.entries@)
    }

    /// A table without tools.
    pub fn new() -> (tools: ToolTable)
        ensures
            tools@ == Map::<Seq<char>, ToolView>::empty(),
    {
        let tools = ToolTable { entries: Vec::new() };
        assert(tools@ =~= Map::<Seq<char>, ToolView>::empty());
        tools
    }

    /// The number of tools.
    pub fn len(&self) -> (n: usize)
        ensures
            self@.dom().finite(),
            n == self@.len(),
    {
        proof {
            use_type_invariant(self);
            lemma_table_len(self.entries@);
        }
        self.entries.len()
    }

    /// Whether there are no tools.
    pub fn is_empty(&self) -> (r: bool)
        ensures
            r == (self@.len() == 0),
    {
        self.len() == 0
    }

    fn find(&self, module_id: &str) -> (r: Option<usize>)
        ensures
            match r {
                Some(i) => stands_at(self.entries@, module_id@, i as int),
                None => !self@.contains_key(module_id@),
            },
    {
        let mut i: usize = 0;
        while i < self.entries.len()
            invariant
                i <= self.entries.len(),
                forall|j: int| 0 <= j < i ==> !stands_at(self.entries@, module_id@, j),
            decreases self.entries.len() - i,
        {
            if text::same(self.entries[i].0.as_str(), module_id) {
                return Some(i);
            }
            i = i + 1;
        }
        None
    }

    /// Whether there is a tool for the module.
    pub fn contains_key(&self, module_id: &str) -> (r: bool)
        ensures
            r == self@.contains_key(module_id@),
    {
        self.find(module_id).is_some()
    }

    /// The module's tool.
    pub fn get(&self, module_id: &str) -> (r: Option<&Tool>)
        ensures
            match r {
                Some(tool) => self@.contains_key(module_id@) && self@[module_id@] == tool@,
                None => !self@.contains_key(module_id@),
            },
    {
        match self.find(module_id) {
            Some(i) => {
                proof {
                    use_type_invariant(self);
                    lemma_table_at(self.entries@, i as int);
                }
                Some(&self.entries[i].1)
            },
            None => None,
        }
    }

    /// Takes the tool in, in place of any that the module had.
    pub fn insert(&mut self, module_id: &str, tool: Tool)
        ensures
            final(self)@ == old(self)@.insert(module_id@, tool@),
    {
        let ghost added = tool@;
        self.remove(module_id);
        proof {
            use_type_invariant(&*self);
        }
        let ghost before = self.entries@;
        assert(!table(before).contains_key(module_id@));
        let mut entries: Vec<(String, Tool)> = Vec::new();
        std::mem::swap(&mut entries, &mut self.entries);
        entries.push((module_id.to_string(), tool));
        proof {
            assert forall|i: int, j: int| 0 <= i < j < entries.len() implies (#[trigger]
            entries@[i]).0@ != (#[trigger] entries@[j]).0@ by {
                assert(entries@[i] == before[i]);
                if j == before.len() {
                    assert(before[i].0@ == module_id@ ==> stands_at(before, module_id@, i));
                } else {
                    assert(entries@[j] == before[j]);
                    assert(before[i].0@ != before[j].0@);
                }
            }
            assert forall|id: Seq<char>| #[trigger] table(entries@).contains_key(id) <==> table(
                before,
            ).insert(module_id@, added).contains_key(id) by {
                if table(entries@).contains_key(id) {
                    let i = choose|i: int| stands_at(entries@, id, i);
                    assert(stands_at(entries@, id, i));
                    if i < before.len() {
                        assert(stands_at(before, id, i));
                    }
                }
                if table(before).contains_key(id) {
                    let i = choose|i: int| stands_at(before, id, i);
                    assert(stands_at(before, id, i));
                    assert(stands_at(entries@, id, i));
                }
                if id == module_id@ {
                    assert(stands_at(entries@, id, before.len() as int));
                }
            }
            assert forall|id: Seq<char>| #[trigger] table(entries@).contains_key(id) implies table(
                entries@,
            )[id] == table(before).insert(module_id@, added)[id] by {
                let i = choose|i: int| stands_at(entries@, id, i);
                assert(stands_at(entries@, id, i));
                lemma_table_at(entries@, i);
                if i < before.len() {
                    lemma_table_at(before, i);
                    assert(stands_at(before, id, i));
                }
            }
            assert(table(entries@) =~= table(before).insert(module_id@, added));
        }
        self.entries = entries;
        assert(self@ =~= old(self)@.insert(module_id@, added));
    }

    /// Takes the module's tool out, and tells whether there was one.
    pub fn remove(&mut self, module_id: &str) -> (removed: bool)
        ensures
            removed == old(self)@.contains_key(module_id@),
            final(self)@ == old(self)@.remove(module_id@),
    {
        proof {
            use_type_invariant(&*self);
        }
        let at: usize = match self.find(module_id) {
            Some(i) => i,
            None => {
                assert(self@.remove(module_id@) =~= self@);
                return false;
            },
        };
        let ghost before = self.entries@;
        let mut entries: Vec<(String, Tool)> = Vec::new();
        std::mem::swap(&mut entries, &mut self.entries);
        entries.remove(at);
        proof {
            let after = entries@;
            assert(after == before.remove(at as int));
            assert forall|i: int, j: int| 0 <= i < j < after.len() implies (#[trigger]
            after[i]).0@ != (#[trigger] after[j]).0@ by {
                let p = if i < at { i } else { i + 1 };
                let q = if j < at { j } else { j + 1 };
                assert(after[i] == before[p]);
                assert(after[j] == before[q]);
                assert(before[p].0@ != before[q].0@);
            }
            assert forall|id: Seq<char>| #[trigger] table(after).contains_key(id) implies table(
                before,
            ).remove(module_id@).contains_key(id) && table(after)[id] == table(before)[id] by {
                let i = choose|i: int| stands_at(after, id, i);
                assert(stands_at(after, id, i));
                let p = if i < at { i } else { i + 1 };
                assert(after[i] == before[p]);
                assert(stands_at(before, id, p));
                lemma_table_at(before, p);
                lemma_table_at(after, i);
                if p < at {
                    assert(before[p].0@ != before[at as int].0@);
                } else {
                    assert(before[at as int].0@ != before[p].0@);
                }
            }
            assert forall|id: Seq<char>| #[trigger]
                table(before).remove(module_id@).contains_key(id) implies table(
                after,
            ).contains_key(id) by {
                let p = choose|p: int| stands_at(before, id, p);
                assert(stands_at(before, id, p));
                let i = if p < at { p } else { p - 1 };
                assert(after[i] == before[p]);
                assert(stands_at(after, id, i));
            }
            assert(table(after) =~= table(before).remove(module_id@));
        }
        self.entries = entries;
        proof {
            assert(stands_at(before, module_id@, at as int));
            assert(self@ =~= old(self)@.remove(module_id@));
        }
        true
    }
}

impl Clone for ToolTable {
    fn clone(&self) -> (copy: ToolTable)
        ensures
            copy@ == self@,
    {
        proof {
            use_type_invariant(self);
        }
        let mut entries: Vec<(String, Tool)> = Vec::new();
        let mut i: usize = 0;
        while i < self.entries.len()
            invariant
                i <= self.entries.len(),
                entries.len() == i,
                forall|j: int|
                    0 <= j < i ==> (#[trigger] entries@[j]).0@ == self.entries@[j].0@
                        && entries@[j].1@ == self.entries@[j].1@,
            decreases self.entries.len() - i,
        {
            let entry = &self.entries[i];
            entries.push((entry.0.clone(), entry.1.clone()));
            i = i + 1;
        }
        proof {
            assert forall|j: int, k: int| 0 <= j < k < entries.len() implies (#[trigger]
            entries@[j]).0@ != (#[trigger] entries@[k]).0@ by {
                assert(self.entries@[j].0@ != self.entries@[k].0@);
            }
            assert forall|id: Seq<char>| #[trigger] table(entries@).contains_key(id) implies table(
                self.entries@,
            ).contains_key(id) && table(entries@)[id] == table(self.entries@)[id] by {
                let j = choose|j: int| stands_at(entries@, id, j);
                assert(stands_at(entries@, id, j));
                assert(stands_at(self.entries@, id, j));
                lemma_table_at(entries@, j);
                lemma_table_at(self.entries@, j);
            }
            assert forall|id: Seq<char>| #[trigger]
                table(self.entries@).contains_key(id) implies table(entries@).contains_key(id) by {
                let j = choose|j: int| stands_at(self.entries@, id, j);
                assert(stands_at(self.entries@, id, j));
                assert(stands_at(entries@, id, j));
            }
            assert(table(entries@) =~= table(self.entries@));
        }
        ToolTable { entries }
    }
}

/// The tools of the modules that came since the listener started, by module.
pub struct RegistryListener {
    tools: ToolTable,
    active: bool,
}

/// The mathematical counterpart of [`RegistryListener`].
#[verifier::ext_equal]
pub struct ListenerView {
    pub tools: Map<Seq<char>, ToolView>,
    pub active: bool,
}

impl View for RegistryListener {
    type V = ListenerView;

    closed spec fn view(&self) -> ListenerView {
        ListenerView { tools: self.tools@, active: self.active }
    }
}

/// The tool for a module that came, under its own id and description; nothing where its id is
/// reserved or it has no schema.
pub open spec fn arrived(descriptor: ModuleDescriptor, input_schema: Result<Json, String>) -> Option<
    ToolView,
> {
    if async_task_bridge::reserved(descriptor.module_id@) {
        None
    } else {
        match input_schema {
            Ok(schema) => Some(
                factory::tool_for(descriptor, schema@, descriptor.description@, None),
            ),
            Err(_) => None,
        }
    }
}

impl ListenerView {
    /// The listener after a module came.
    pub open spec fn after_register(
        self,
        module_id: Seq<char>,
        descriptor: Option<ModuleDescriptor>,
        input_schema: Result<Json, String>,
    ) -> ListenerView {
        match descriptor {
            Some(d) => if self.active && arrived(d, input_schema) is Some {
                ListenerView {
                    tools: self.tools.insert(module_id, arrived(d, input_schema).unwrap()),
                    ..self
                }
            } else {
                self
            },
            None => self,
        }
    }

    /// The listener after a module went.
    pub open spec fn after_unregister(self, module_id: Seq<char>) -> ListenerView {
        if self.active {
            ListenerView { tools: self.tools.remove(module_id), ..self }
        } else {
            self
        }
    }
}

impl RegistryListener {
    /// A listener that has not started.
    pub fn new() -> (listener: RegistryListener)
        ensures
            listener@ == (ListenerView {
                tools: Map::<Seq<char>, ToolView>::empty(),
                active: false,
            }),
    {
        RegistryListener { tools: ToolTable::new(), active: false }
    }

    /// Starts the listener, and tells whether it had to be started: where it had, the registry's
    /// events are to be handed to it from now on.
    pub fn start(&mut self) -> (started: bool)
        ensures
            started == !old(self)@.active,
            final(self)@ == (ListenerView { active: true, ..old(self)@ }),
    {
        let started = !self.active;
        self.active = true;
        started
    }

    /// Stops the listener: events pass it by.
    pub fn stop(&mut self)
        ensures
            final(self)@ == (ListenerView { active: false, ..old(self)@ }),
    {
        self.active = false;
    }

    /// Whether the listener listens.
    pub fn is_active(&self) -> (r: bool)
        ensures
            r == self@.active,
    {
        self.active
    }

    /// The tools as they are at the moment, by module.
    pub fn tools(&self) -> (tools: ToolTable)
        ensures
            tools@ == self@.tools,
    {
        self.tools.clone()
    }

    /// Takes in that the module `module_id` came, with `descriptor` as the registry has it and
    /// `input_schema` as what its schema comes to.
    pub fn on_register(
        &mut self,
        factory: &MCPServerFactory,
        module_id: &str,
        descriptor: Option<&ModuleDescriptor>,
        input_schema: Result<Json, String>,
    )
        ensures
            final(self)@ == old(self)@.after_register(
                module_id@,
                match descriptor {
                    Some(d) => Some(*d),
                    None => None,
                },
                input_schema,
            ),
    {
        if !self.active {
            return ;
        }
        let descriptor = match descriptor {
            Some(descriptor) => descriptor,
            None => {
                return ;
            },
        };
        match factory.build_tool(
            descriptor,
            descriptor.description.as_str(),
            None,
            input_schema,
        ) {
            Ok(tool) => {
                self.tools.insert(module_id, tool);
            },
            Err(_) => {},
        }
    }

    /// Takes in that the module `module_id` went, and tells whether there was a tool for it.
    pub fn on_unregister(&mut self, module_id: &str) -> (removed: bool)
        ensures
            removed == (old(self)@.active && old(self)@.tools.contains_key(module_id@)),
            final(self)@ == old(self)@.after_unregister(module_id@),
    {
        if !self.active {
            return false;
        }
        self.tools.remove(module_id)
    }

    /// Takes in that the module `module_id` came, as `registry` has it at the moment.
    pub fn on_register_in<A: factory::ToolAdapters>(
        &mut self,
        factory: &MCPServerFactory,
        registry: &apcore::registry::Registry,
        adapters: &A,
        module_id: &str,
    )
        ensures
            !old(self)@.active ==> final(self)@ == old(self)@,
            old(self)@.active ==> exists|
                descriptor: Option<ModuleDescriptor>,
                input_schema: Result<Json, String>,
            |
                modules::looked_up(registry, module_id@, descriptor) && (descriptor matches Some(
                    d,
                ) ==> call_ensures(
                    A::convert_input_schema,
                    (adapters, &d.input_schema),
                    input_schema,
                )) && final(self)@ == #[trigger] old(self)@.after_register(
                    module_id@,
                    descriptor,
                    input_schema,
                ),
    {
        if !self.active {
            return ;
        }
        match modules::definition(registry, module_id) {
            Some(d) => {
                let schema = adapters.convert_input_schema(&d.input_schema);
                self.on_register(factory, module_id, Some(&d), schema);
                assert(self@ == old(self)@.after_register(module_id@, Some(d), schema));
            },
            None => {
                let ghost schema: Result<Json, String> = Ok(Json::Null);
                assert(self@ == old(self)@.after_register(
                    module_id@,
                    None::<ModuleDescriptor>,
                    schema,
                ));
            },
        }
    }
}

impl Default for RegistryListener {
    fn default() -> (listener: RegistryListener)
        ensures
            listener@ == (ListenerView {
                tools: Map::<Seq<char>, ToolView>::empty(),
                active: false,
            }),
    {
        RegistryListener::new()
    }
}

/// A listener that was stopped keeps what it has, whatever comes and goes.
pub proof fn law_stopped_listener_keeps_still(
    listener: ListenerView,
    module_id: Seq<char>,
    descriptor: Option<ModuleDescriptor>,
    input_schema: Result<Json, String>,
)
    requires
        !listener.active,
    ensures
        listener.after_register(module_id, descriptor, input_schema) == listener,
        listener.after_unregister(module_id) == listener,
{
}

/// A module that came and went leaves the tools as they were, where there was none for it.
pub proof fn law_came_and_went(
    listener: ListenerView,
    module_id: Seq<char>,
    descriptor: Option<ModuleDescriptor>,
    input_schema: Result<Json, String>,
)
    requires
        !listener.tools.contains_key(module_id),
    ensures
        listener.after_register(module_id, descriptor, input_schema).after_unregister(module_id)
            == listener,
{
    let came = listener.after_register(module_id, descriptor, input_schema);
    assert(came.tools.remove(module_id) =~= listener.tools);
    assert(came.after_unregister(module_id) =~= listener);
}

/// A table gives the tool that was taken in last for a module, until it is taken out, and keeps the
/// tools of all other modules.
pub proof fn law_tables_keep_tools(
    tools: &mut ToolTable,
    module_id: &str,
    tool: Tool,
    other: &str,
    found: Option<&Tool>,
    before: Option<&Tool>,
    after: Option<&Tool>,
)
    requires
        call_ensures(ToolTable::insert, (tools, module_id, tool), ()),
        call_ensures(ToolTable::get, (&*final(tools), module_id), found),
        other@ != module_id@,
        call_ensures(ToolTable::get, (&*old(tools), other), before),
        call_ensures(ToolTable::get, (&*final(tools), other), after),
    ensures
        found matches Some(kept) && kept@ == tool@,
        match (before, after) {
            (Some(a), Some(b)) => a@ == b@,
            (None, None) => true,
            _ => false,
        },
{
}

/// A tool that was taken out is gone, and the tools of all other modules are kept; a table that was
/// just made has none.
pub proof fn law_tables_give_tools_up(
    tools: &mut ToolTable,
    module_id: &str,
    removed: bool,
    other: &str,
    there: bool,
    gone: bool,
    before: bool,
    after: bool,
    empty: ToolTable,
    none: usize,
    n: usize,
    m: usize,
)
    requires
        call_ensures(ToolTable::contains_key, (&*old(tools), module_id), there),
        call_ensures(ToolTable::remove, (tools, module_id), removed),
        call_ensures(ToolTable::contains_key, (&*final(tools), module_id), gone),
        other@ != module_id@,
        call_ensures(ToolTable::contains_key, (&*old(tools), other), before),
        call_ensures(ToolTable::contains_key, (&*final(tools), other), after),
        call_ensures(ToolTable::new, (), empty),
        call_ensures(ToolTable::len, (&empty,), none),
        call_ensures(ToolTable::len, (&*old(tools),), n),
        call_ensures(ToolTable::len, (&*final(tools),), m),
    ensures
        removed == there,
        !gone,
        before == after,
        none == 0,
        n == m + if there {
            1int
        } else {
            0int
        },
{
}

/// A module that comes while the listener listens has a tool under its own id: one with the
/// module's own name and description, the schema that its own comes to, and its hints. A module
/// whose id is reserved or that has no schema has none, and neither has one that comes while nobody
/// listens.
pub proof fn law_modules_that_come_have_tools(
    listener: &mut RegistryListener,
    factory: &MCPServerFactory,
    module_id: &str,
    descriptor: &ModuleDescriptor,
    schema: Result<Json, String>,
    tools: ToolTable,
    found: Option<&Tool>,
    description: &str,
    built: Result<Tool, crate::server::FactoryError>,
)
    requires
        call_ensures(
            RegistryListener::on_register,
            (listener, factory, module_id, Some(descriptor), schema),
            (),
        ),
        call_ensures(RegistryListener::tools, (&*final(listener),), tools),
        call_ensures(ToolTable::get, (&tools, module_id), found),
        !old(listener)@.tools.contains_key(module_id@),
        description@ == descriptor.description@,
        call_ensures(
            MCPServerFactory::build_tool,
            (factory, descriptor, description, None::<&str>, schema),
            built,
        ),
    ensures
        found is Some == (old(listener)@.active && built is Ok),
        found matches Some(tool) ==> (built matches Ok(made) && tool@ == made@),
        final(listener)@.active == old(listener)@.active,
        forall|other: Seq<char>|
            other != module_id@ ==> (#[trigger] final(listener)@.tools.contains_key(other) == old(
                listener,
            )@.tools.contains_key(other)) && final(listener)@.tools[other] == old(
                listener,
            )@.tools[other],
{
}

/// A module that goes while the listener listens has no tool any more; the others keep theirs.
/// While nobody listens, nothing changes.
pub proof fn law_modules_that_go_lose_their_tools(
    listener: &mut RegistryListener,
    module_id: &str,
    removed: bool,
    listening: bool,
)
    requires
        call_ensures(RegistryListener::is_active, (&*old(listener),), listening),
        call_ensures(RegistryListener::on_unregister, (listener, module_id), removed),
    ensures
        removed == (listening && old(listener)@.tools.contains_key(module_id@)),
        listening ==> !final(listener)@.tools.contains_key(module_id@),
        !listening ==> final(listener)@ == old(listener)@,
        final(listener)@.active == listening,
        forall|other: Seq<char>|
            other != module_id@ ==> (#[trigger] final(listener)@.tools.contains_key(other) == old(
                listener,
            )@.tools.contains_key(other)),
{
}

/// A listener listens from its start to its stop; starting tells whether it had to be started, and
/// neither touches the tools.
pub proof fn law_listeners_start_and_stop(
    fresh: RegistryListener,
    idle: bool,
    listener: &mut RegistryListener,
    stopping: &mut RegistryListener,
    started: bool,
    listening: bool,
    stopped: bool,
)
    requires
        call_ensures(RegistryListener::new, (), fresh),
        call_ensures(RegistryListener::is_active, (&fresh,), idle),
        call_ensures(RegistryListener::start, (listener,), started),
        call_ensures(RegistryListener::is_active, (&*final(listener),), listening),
        *old(stopping) == *final(listener),
        call_ensures(RegistryListener::stop, (stopping,), ()),
        call_ensures(RegistryListener::is_active, (&*final(stopping),), stopped),
    ensures
        !idle,
        fresh@.tools.dom() == Set::<Seq<char>>::empty(),
        listening,
        !stopped,
        started == !old(listener)@.active,
        final(listener)@.tools == old(listener)@.tools,
        final(stopping)@.tools == old(listener)@.tools,
{
    assert(fresh@.tools.dom() =~= Set::<Seq<char>>::empty());
}

/// A module that comes is taken as the registry has it at the moment, and with the schema that the
/// adapters give for its own; a module that is not there, and one that comes while nobody listens,
/// changes nothing.
pub proof fn law_modules_come_from_the_registry<A: factory::ToolAdapters>(
    listener: &mut RegistryListener,
    factory: &MCPServerFactory,
    registry: &apcore::registry::Registry,
    adapters: &A,
    module_id: &str,
)
    requires
        call_ensures(
            RegistryListener::on_register_in::<A>,
            (listener, factory, registry, adapters, module_id),
            (),
        ),
    ensures
        !old(listener)@.active ==> final(listener)@ == old(listener)@,
        old(listener)@.active ==> exists|
            found: Option<ModuleDescriptor>,
            schema: Result<Json, String>,
        |
            #![trigger modules::looked_up(registry, module_id@, found), arrived_as(found, schema)]
            modules::looked_up(registry, module_id@, found) && (found matches Some(d)
                ==> call_ensures(A::convert_input_schema, (adapters, &d.input_schema), schema))
                && final(listener)@.tools == (match arrived_as(found, schema) {
                Some(tool) => old(listener)@.tools.insert(module_id@, tool),
                None => old(listener)@.tools,
            }),
{
    if old(listener)@.active {
        let (found, schema) = choose|
            found: Option<ModuleDescriptor>,
            schema: Result<Json, String>,
        |
            modules::looked_up(registry, module_id@, found) && (found matches Some(d)
                ==> call_ensures(A::convert_input_schema, (adapters, &d.input_schema), schema))
                && final(listener)@ == #[trigger] old(listener)@.after_register(
                module_id@,
                found,
                schema,
            );
        assert(modules::looked_up(registry, module_id@, found));
        assert(arrived_as(found, schema) == arrived_as(found, schema));
    }
}

/// The tool for a module that was found, with its own id, description, schema and hints; nothing
/// where none was found, its id is reserved or it has no schema.
pub open spec fn arrived_as(
    found: Option<ModuleDescriptor>,
    schema: Result<Json, String>,
) -> Option<ToolView> {
    match (found, schema) {
        (Some(descriptor), Ok(own)) => if text::has_prefix(descriptor.module_id@, "__apcore_"@) {
            None
        } else {
            Some(
                ToolView {
                    name: descriptor.module_id@,
                    description: factory::enriched(
                        descriptor.description@,
                        Some(descriptor.metadata@),
                    ),
                    input_schema: own@,
                    annotations: Some(factory::hints(descriptor.annotations)),
                    meta: factory::meta_of(descriptor),
                },
            )
        },
        _ => None,
    }
}

/// A copy of a table has the same tools, and a listener that is made by default has not started.
pub proof fn law_listener_defaults(
    table: &ToolTable,
    copy: ToolTable,
    listener: RegistryListener,
    none: bool,
    n: usize,
)
    requires
        call_ensures(<ToolTable as Clone>::clone, (table,), copy),
        call_ensures(<RegistryListener as Default>::default, (), listener),
        call_ensures(ToolTable::is_empty, (table,), none),
        call_ensures(ToolTable::len, (table,), n),
    ensures
        copy@ == table@,
        !listener@.active && listener@.tools.dom() == Set::<Seq<char>>::empty(),
        none == (n == 0),
{
    assert(listener@.tools.dom() =~= Set::<Seq<char>>::empty());
}

} // verus!
