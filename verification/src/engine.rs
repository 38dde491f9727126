//! The step dispatcher: a registry of plugins, and the routing of each step
//! to the plugin that owns its identifier.
//!
//! Routing is by the full identifier (`templates.load`), matched exactly.

use vstd::prelude::*;
use std::sync::Arc;
use crate::context::{ContextView, PipelineContext, StepOutput};
use crate::error::{EngineError, ErrorView};
use crate::json::Members;
use crate::step::SerializedStep;
use crate::textmap::TextMap;

verus! {

/// What every plugin offers to the engine.
///
/// A plugin may say in `step_effect` what an execution of one of its steps
/// can do to the context and what it can return; the engine's own contracts
/// are stated over that. A plugin that does not say leaves everything open.
pub trait EnginePlugin: Send + Sync {
    /// Whether executing `step` on a context that reads `before` may leave it
    /// reading `after` and return `output`.
    open spec fn step_effect(
        &self,
        before: ContextView,
        step: Members,
        after: ContextView,
        output: Result<StepOutput, ErrorView>,
    ) -> bool {
        true
    }

    /// Executes one step. The plugin may change the context in any way that
    /// its `step_effect` admits.
    fn execute_step(&self, context: &mut PipelineContext, step: &SerializedStep) -> (output:
        Result<StepOutput, EngineError>)
        ensures
            self.step_effect(
                old(context)@,
                step@,
                final(context)@,
                crate::context::output_view(output),
            ),
    ;

    /// The identifiers of the steps that this plugin owns.
    fn steps(&self) -> Vec<String>;
}

/// A registered plugin.
pub struct PluginHandle {
    plugin: Arc<dyn EnginePlugin>,
}

impl PluginHandle {
    /// The plugin's `step_effect`.
    pub closed spec fn step_effect(
        &self,
        before: ContextView,
        step: Members,
        after: ContextView,
        output: Result<StepOutput, ErrorView>,
    ) -> bool {
        self.plugin.step_effect(before, step, after, output)
    }

    /// Whether this handle stands for `plugin`: executing a step with the
    /// one has the effect of executing it with the other.
    pub open spec fn stands_for<P: EnginePlugin>(&self, plugin: P) -> bool {
        forall|
            before: ContextView,
            step: Members,
            after: ContextView,
            output: Result<StepOutput, ErrorView>,
        |
            #[trigger] self.step_effect(before, step, after, output) == plugin.step_effect(
                before,
                step,
                after,
                output,
            )
    }

    /// Executes one step with the plugin.
    pub fn execute_step(&self, context: &mut PipelineContext, step: &SerializedStep) -> (output:
        Result<StepOutput, EngineError>)
        ensures
            self.step_effect(
                old(context)@,
                step@,
                final(context)@,
                crate::context::output_view(output),
            ),
    {
        self.plugin.execute_step(context, step)
    }
}

/// `std::sync::Arc::new`, with the pointer then taken as one to a trait
/// object: the plugin behind the handle is the one given.
#[verifier::external_body]
fn share<P: EnginePlugin + 'static>(plugin: P) -> (handle: PluginHandle)
    ensures
        handle.stands_for(plugin),
{
    PluginHandle { plugin: Arc::new(plugin) }
}

/// Why a plugin was not registered: one of its identifiers is taken already,
/// or it names one twice.
#[derive(Debug)]
pub struct RegistrationError {
    /// The identifier in question.
    pub step: String,
}

/// Whether `ids` can be registered beside what `taken` holds: no identifier
/// twice, and none that is taken.
pub open spec fn registrable(taken: Map<Seq<char>, usize>, ids: Seq<Seq<char>>) -> bool {
    &&& ids.no_duplicates()
    &&& forall|i: int| 0 <= i < ids.len() ==> !taken.contains_key(#[trigger] ids[i])
}

/// The routes after the plugin at `index` has registered `ids`.
pub open spec fn with_routes(taken: Map<Seq<char>, usize>, ids: Seq<Seq<char>>, index: usize) -> Map<
    Seq<char>,
    usize,
> {
    Map::new(
        |k: Seq<char>| taken.contains_key(k) || ids.contains(k),
        |k: Seq<char>|
            if ids.contains(k) {
                index
            } else {
                taken[k]
            },
    )
}

/// The registry of plugins.
pub struct Engine {
    plugins: Vec<PluginHandle>,
    routes: TextMap<usize>,
}

/// Whether registering `plugin` under `ids` takes the engine from `before`
/// to `after` with the answer `added`. Where the identifiers can be
/// registered, the plugin is added behind the others and every identifier is
/// routed to it, the older routes staying as they are. Where they cannot,
/// nothing changes and the error names one of them.
pub open spec fn registers<P: EnginePlugin>(
    before: Engine,
    after: Engine,
    plugin: P,
    ids: Seq<Seq<char>>,
    added: Result<(), RegistrationError>,
) -> bool {
    if registrable(before.routes(), ids) {
        &&& added is Ok
        &&& after.plugins().len() == before.plugins().len() + 1
        &&& after.plugins().drop_last() == before.plugins()
        &&& after.plugins().last().stands_for(plugin)
        &&& after.routes() == with_routes(
            before.routes(),
            ids,
            before.plugins().len() as usize,
        )
    } else {
        &&& added matches Err(e) && ids.contains(e.step@)
        &&& after.plugins() == before.plugins()
        &&& after.routes() == before.routes()
    }
}

impl Engine {
    #[verifier::type_invariant]
    spec fn inv(self) -> bool {
        forall|k: Seq<char>| #[trigger]
            self.routes@.contains_key(k) ==> self.routes@[k] < self.plugins.len()
    }

    /// The registered plugins, in the order of their registration.
    pub closed spec fn plugins(&self) -> Seq<PluginHandle> {
        self.plugins@
    }

    /// The routing table: step identifier to the index of its plugin.
    pub closed spec fn routes(&self) -> Map<Seq<char>, usize> {
        self.routes@
    }

    /// What holds of every engine: each route leads to a registered plugin.
    pub open spec fn well_routed(&self) -> bool {
        forall|k: Seq<char>| #[trigger]
            self.routes().contains_key(k) ==> self.routes()[k] < self.plugins().len()
    }

    /// Whether dispatching `step` on a context that reads `before` may leave
    /// it reading `after` and return `output`: the plugin that the step's
    /// identifier is routed to has that effect; without such a plugin the
    /// context stays as it is and the output is `PluginNotFound` with the
    /// step.
    pub open spec fn dispatch(
        &self,
        before: ContextView,
        step: Members,
        after: ContextView,
        output: Result<StepOutput, ErrorView>,
    ) -> bool {
        match crate::step::kind_of(step) {
            Some(kind) if self.routes().contains_key(kind) => self.plugins()[self.routes()[kind] as int].step_effect(
                before,
                step,
                after,
                output,
            ),
            _ => after == before && output == Err::<StepOutput, ErrorView>(
                ErrorView::PluginNotFound(step),
            ),
        }
    }

    /// An engine without plugins.
    pub fn new() -> (engine: Engine)
        ensures
            engine.plugins() == Seq::<PluginHandle>::empty(),
            engine.routes() == Map::<Seq<char>, usize>::empty(),
            engine.well_routed(),
    {
        let engine = Engine { plugins: Vec::new(), routes: TextMap::new() };
        assert(engine.plugins() =~= Seq::<PluginHandle>::empty());
        engine
    }

    /// Registers `plugin` under every identifier that its `steps` gives, as
    /// `register` does.
    pub fn add_plugin<P: EnginePlugin + 'static>(&mut self, plugin: P) -> (added: Result<
        (),
        RegistrationError,
    >)
        ensures
            final(self).well_routed(),
            exists|ids: Seq<Seq<char>>| #[trigger]
                registers(*old(self), *final(self), plugin, ids, added),
    {
        let ids = plugin.steps();
        let added = self.register(plugin, &ids);
        assert(registers(*old(self), *self, plugin, crate::text::texts(ids@), added));
        added
    }

    /// Registers `plugin` under the identifiers `ids`. Nothing is
    /// registered, and the error names the identifier, if one of them is
    /// taken by an earlier plugin or stands twice in `ids`.
    pub fn register<P: EnginePlugin + 'static>(&mut self, plugin: P, ids: &Vec<String>) -> (added:
        Result<(), RegistrationError>)
        ensures
            final(self).well_routed(),
            registers(*old(self), *final(self), plugin, crate::text::texts(ids@), added),
    {
        proof {
            use_type_invariant(&*self);
        }
        let ghost owned = crate::text::texts(ids@);
        let mut i: usize = 0;
        while i < ids.len()
            invariant
                i <= ids.len(),
                crate::text::texts(ids@) == owned,
                *self == *old(self),
                self.well_routed(),
                forall|a: int| 0 <= a < i ==> !self.routes@.contains_key(#[trigger] owned[a]),
                forall|a: int, b: int| 0 <= a < b < i ==> owned[a] != owned[b],
            decreases ids.len() - i,
        {
            assert(owned[i as int] == ids@[i as int]@);
            let taken = self.routes.get(ids[i].as_str()).is_some();
            let mut repeated = false;
            let mut j: usize = 0;
            while j < i
                invariant
                    j <= i < ids.len(),
                    crate::text::texts(ids@) == owned,
                    repeated <==> exists|a: int| 0 <= a < j && owned[a] == owned[i as int],
                decreases i - j,
            {
                assert(owned[j as int] == ids@[j as int]@);
                assert(owned[i as int] == ids@[i as int]@);
                if ids[j].as_str().eq(ids[i].as_str()) {
                    repeated = true;
                }
                j += 1;
            }
            if taken || repeated {
                let step = ids[i].clone();
                proof {
                    assert(step@ == owned[i as int]);
                    assert(owned.contains(step@));
                    if repeated {
                        let a = choose|a: int| 0 <= a < i && owned[a] == owned[i as int];
                        assert(owned[a] == owned[i as int] && a != i);
                        assert(!owned.no_duplicates());
                    } else {
                        assert(self.routes().contains_key(owned[i as int]));
                    }
                    assert(!registrable(self.routes(), owned));
                }
                return Err(RegistrationError { step });
            }
            i += 1;
        }
        assert(registrable(self.routes@, owned));
        let handle = share(plugin);
        let mut taken = Engine { plugins: Vec::new(), routes: TextMap::new() };
        std::mem::swap(self, &mut taken);
        let Engine { plugins: mut plugins, routes: mut routes } = taken;
        let ghost old_routes = routes@;
        let ghost old_plugins = plugins@;
        let index = plugins.len();
        plugins.push(handle);
        let mut i: usize = 0;
        while i < ids.len()
            invariant
                i <= ids.len(),
                crate::text::texts(ids@) == owned,
                routes@ == with_routes(old_routes, owned.take(i as int), index),
            decreases ids.len() - i,
        {
            assert(owned[i as int] == ids@[i as int]@);
            routes.insert(ids[i].clone(), index);
            proof {
                let next = owned.take(i + 1);
                let prev = owned.take(i as int);
                assert(next =~= prev.push(owned[i as int]));
                assert forall|k: Seq<char>| next.contains(k) <==> (prev.contains(k) || k
                    == owned[i as int]) by {
                    if prev.contains(k) {
                        let a = prev.index_of(k);
                        assert(next[a] == k);
                    }
                    if next.contains(k) && k != owned[i as int] {
                        let a = next.index_of(k);
                        assert(prev[a] == k);
                    }
                    assert(next[i as int] == owned[i as int]);
                }
                assert(routes@ =~= with_routes(old_routes, next, index));
            }
            i += 1;
        }
        proof {
            assert(owned.take(ids.len() as int) =~= owned);
            assert(plugins@.drop_last() =~= old_plugins);
        }
        *self = Engine { plugins, routes };
        Ok(())
    }

    /// The index of the plugin that `step` is routed to.
    pub fn route(&self, step: &SerializedStep) -> (owner: Option<usize>)
        ensures
            self.well_routed(),
            crate::step::kind_of(step@) is Some,
            match owner {
                Some(p) => self.routes().contains_key(crate::step::kind_of(step@)->0)
                    && self.routes()[crate::step::kind_of(step@)->0] == p,
                None => !self.routes().contains_key(crate::step::kind_of(step@)->0),
            },
    {
        proof {
            use_type_invariant(self);
        }
        match self.routes.get(step.get_type()) {
            Some(p) => Some(*p),
            None => None,
        }
    }

    /// Hands `step` to the plugin that owns its identifier and returns what
    /// the plugin returns. Where no plugin owns it, the answer is
    /// `PluginNotFound` with the step, and the context is not touched.
    pub fn execute_step(&self, context: &mut PipelineContext, step: &SerializedStep) -> (output:
        Result<StepOutput, EngineError>)
        ensures
            self.dispatch(
                old(context)@,
                step@,
                final(context)@,
                crate::context::output_view(output),
            ),
    {
        proof {
            use_type_invariant(self);
        }
        match self.route(step) {
            Some(p) => self.plugins[p].execute_step(context, step),
            None => Err(EngineError::PluginNotFound(step.clone())),
        }
    }
}

/// Routing is by the exact identifier. After a plugin has been registered
/// under `ids`, a step whose identifier is one of them has the effect that
/// the plugin gives it, and a step whose identifier was routed before is
/// routed as before. A step whose identifier no plugin has registered gives
/// `PluginNotFound` and leaves the context as it is.
pub proof fn lemma_routing<P: EnginePlugin>(
    earlier: Engine,
    later: Engine,
    plugin: P,
    ids: Seq<Seq<char>>,
    added: Result<(), RegistrationError>,
    before: ContextView,
    step: Members,
    after: ContextView,
    output: Result<StepOutput, ErrorView>,
)
    requires
        registers(earlier, later, plugin, ids, added),
        earlier.well_routed(),
        crate::step::kind_of(step) is Some,
    ensures
        added is Ok && ids.contains(crate::step::kind_of(step)->0) ==> (later.dispatch(
            before,
            step,
            after,
            output,
        ) <==> plugin.step_effect(before, step, after, output)),
        earlier.routes().contains_key(crate::step::kind_of(step)->0) ==> (later.dispatch(
            before,
            step,
            after,
            output,
        ) <==> earlier.dispatch(before, step, after, output)),
        !later.routes().contains_key(crate::step::kind_of(step)->0) ==> (later.dispatch(
            before,
            step,
            after,
            output,
        ) <==> after == before && output == Err::<StepOutput, ErrorView>(
            ErrorView::PluginNotFound(step),
        )),
{
    let kind = crate::step::kind_of(step)->0;
    if registrable(earlier.routes(), ids) {
        if ids.contains(kind) {
            let at = ids.index_of(kind);
            assert(!earlier.routes().contains_key(ids[at]));
            assert(earlier.plugins().len() == earlier.plugins.len());
            assert(later.plugins()[later.routes()[kind] as int] == later.plugins().last());
        } else if earlier.routes().contains_key(kind) {
            let p = earlier.routes()[kind] as int;
            assert(later.plugins().drop_last()[p] == later.plugins()[p]);
        }
    }
}

} // verus!
