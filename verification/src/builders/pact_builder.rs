//! The builder of a contract: the interactions in the order they were
//! pushed, between a named consumer and a named provider.

use vstd::prelude::*;
use crate::error::{ErrorKind, PactError};
use crate::models::interaction::{InteractionModel, InteractionResource, NifInteraction};
use crate::models::v4::async_message::{MessageModel, NifAsynchronousMessage};
use crate::models::v4::http_parts::{text_of, views};

verus! {

/// A plug-in that was activated for a contract: its name and, where one was
/// asked for, its version.
#[derive(Debug)]
pub struct PluginRef {
    pub name: String,
    pub version: Option<String>,
}

impl View for PluginRef {
    type V = (Seq<char>, Option<Seq<char>>);

    open spec fn view(&self) -> (Seq<char>, Option<Seq<char>>) {
        (self.name@, text_of(self.version))
    }
}

impl Clone for PluginRef {
    /// A copy that names the same plug-in.
    fn clone(&self) -> (r: PluginRef)
        ensures
            r@ == self@,
    {
        PluginRef { name: self.name.clone(), version: self.version.clone() }
    }
}

impl PluginRef {
    /// Whether this is the plug-in `name` in version `version`.
    pub fn is(&self, name: &String, version: &Option<String>) -> (r: bool)
        ensures
            r == (self@ == (name@, text_of(*version))),
    {
        self.name == *name && match (&self.version, version) {
            (Some(mine), Some(other)) => *mine == *other,
            (None, None) => true,
            _ => false,
        }
    }
}

/// The builder of a contract. Interactions and plug-ins are only ever added
/// to it.
#[derive(Debug)]
pub struct NifPactBuilder {
    pub consumer: String,
    pub provider: String,
    /// Whether the contract is in the extended format.
    pub is_v4: bool,
    /// The interactions, in the order they were pushed.
    pub interactions: Vec<NifInteraction>,
    /// The plug-ins that were activated, each once, in the order they first
    /// were.
    pub plugins: Vec<PluginRef>,
}

/// What a contract stands for.
pub ghost struct PactModel {
    pub consumer: Seq<char>,
    pub provider: Seq<char>,
    pub is_v4: bool,
    pub interactions: Seq<InteractionModel>,
    pub plugins: Seq<(Seq<char>, Option<Seq<char>>)>,
}

impl View for NifPactBuilder {
    type V = PactModel;

    open spec fn view(&self) -> PactModel {
        PactModel {
            consumer: self.consumer@,
            provider: self.provider@,
            is_v4: self.is_v4,
            interactions: views(self.interactions@),
            plugins: views(self.plugins@),
        }
    }
}

impl Clone for NifPactBuilder {
    /// A copy that stands for the same contract.
    fn clone(&self) -> (r: NifPactBuilder)
        ensures
            r@ == self@,
    {
        let interactions = self.interactions.clone();
        let plugins = self.plugins.clone();
        assert(views(interactions@) =~= views(self.interactions@));
        assert(views(plugins@) =~= views(self.plugins@));
        NifPactBuilder {
            consumer: self.consumer.clone(),
            provider: self.provider.clone(),
            is_v4: self.is_v4,
            interactions,
            plugins,
        }
    }
}

/// The messages among `interactions`, in the order they stand there.
pub open spec fn messages_of(interactions: Seq<InteractionModel>) -> Seq<MessageModel>
    decreases interactions.len(),
{
    if interactions.len() == 0 {
        Seq::empty()
    } else {
        let before = messages_of(interactions.drop_last());
        match interactions.last() {
            InteractionModel::AsynchronousMessage(message) => before.push(message),
            _ => before,
        }
    }
}

/// Whether a contract takes `interaction`: one in the legacy format holds
/// requests and responses only, one in the extended format holds anything.
pub open spec fn takes(pact: PactModel, interaction: InteractionModel) -> bool {
    pact.is_v4 || !(interaction is AsynchronousMessage)
}

/// The description of an interaction.
pub open spec fn description(interaction: InteractionModel) -> Seq<char> {
    match interaction {
        InteractionModel::RequestResponse { description, .. } => description,
        InteractionModel::SynchronousHttp { description, .. } => description,
        InteractionModel::AsynchronousMessage(message) => message.description,
    }
}

/// Whether `outcome` and the contract `after` it are what pushing
/// `interaction` onto `before` gives: where the contract takes it, it stands
/// behind the interactions that were there; where not, nothing changes and
/// the `InvalidArgument` error carries the interaction's description.
pub open spec fn pushed(
    before: PactModel,
    after: PactModel,
    interaction: InteractionModel,
    outcome: Result<(), PactError>,
) -> bool {
    match outcome {
        Ok(_) => takes(before, interaction) && after == (PactModel {
            interactions: before.interactions.push(interaction),
            ..before
        }),
        Err(error) => !takes(before, interaction) && after == before && error.is(
            ErrorKind::InvalidArgument,
            description(interaction),
        ),
    }
}

/// Pushing keeps the order of what was pushed before: every interaction
/// stays at its place, and the new one stands last.
pub proof fn law_push_keeps_order(
    before: PactModel,
    after: PactModel,
    interaction: InteractionModel,
    outcome: Result<(), PactError>,
)
    requires
        pushed(before, after, interaction, outcome),
        outcome is Ok,
    ensures
        after.interactions.len() == before.interactions.len() + 1,
        forall|i: int| 0 <= i < before.interactions.len() ==> after.interactions[i] == before.interactions[i],
        after.interactions.last() == interaction,
{
}

/// A longer part of the contract, read from its start, holds at least as many
/// messages as a shorter one.
proof fn lemma_messages_grow(interactions: Seq<InteractionModel>, shorter: int, longer: int)
    requires
        0 <= shorter <= longer <= interactions.len(),
    ensures
        messages_of(interactions.take(shorter)).len() <= messages_of(interactions.take(longer)).len(),
    decreases longer - shorter,
{
    if shorter < longer {
        lemma_messages_grow(interactions, shorter, longer - 1);
        assert(interactions.take(longer).drop_last() =~= interactions.take(longer - 1));
    }
}

/// Every listed message was pushed: the message at place `index` of the list
/// stands in the contract at the place this gives, with `index` messages
/// before it.
pub proof fn law_listed_message_was_pushed(interactions: Seq<InteractionModel>, index: int) -> (place: int)
    requires
        0 <= index < messages_of(interactions).len(),
    ensures
        0 <= place < interactions.len(),
        interactions[place] == InteractionModel::AsynchronousMessage(messages_of(interactions)[index]),
        messages_of(interactions.take(place)).len() == index,
    decreases interactions.len(),
{
    let before = interactions.drop_last();
    if interactions.last() is AsynchronousMessage && index == messages_of(before).len() {
        assert(interactions.take(interactions.len() - 1) =~= before);
        interactions.len() - 1
    } else {
        let place = law_listed_message_was_pushed(before, index);
        assert(before.take(place) =~= interactions.take(place));
        place
    }
}

/// Every message that was pushed is listed: a message at place `place` of the
/// contract stands in the list at the place that counts the messages before
/// it.
pub proof fn law_pushed_message_is_listed(interactions: Seq<InteractionModel>, place: int)
    requires
        0 <= place < interactions.len(),
        interactions[place] is AsynchronousMessage,
    ensures
        ({
            let index = messages_of(interactions.take(place)).len() as int;
            &&& index < messages_of(interactions).len()
            &&& InteractionModel::AsynchronousMessage(messages_of(interactions)[index]) == interactions[place]
        }),
    decreases interactions.len(),
{
    let before = interactions.drop_last();
    if place == interactions.len() - 1 {
        assert(interactions.take(place) =~= before);
    } else {
        law_pushed_message_is_listed(before, place);
        assert(before.take(place) =~= interactions.take(place));
    }
}

/// The list of messages keeps the order in which the messages were pushed:
/// of two listed messages, the one that is listed first stands first in the
/// contract.
pub proof fn law_messages_keep_order(interactions: Seq<InteractionModel>, first: int, second: int)
    requires
        0 <= first < second < messages_of(interactions).len(),
    ensures
        exists|p: int, q: int|
            0 <= p < q < interactions.len() && #[trigger] interactions[p]
                == InteractionModel::AsynchronousMessage(messages_of(interactions)[first])
                && #[trigger] interactions[q] == InteractionModel::AsynchronousMessage(
                messages_of(interactions)[second],
            ),
{
    let p = law_listed_message_was_pushed(interactions, first);
    let q = law_listed_message_was_pushed(interactions, second);
    if p >= q {
        lemma_messages_grow(interactions, q, p);
    }
    assert(interactions[p] == InteractionModel::AsynchronousMessage(messages_of(interactions)[first]));
    assert(interactions[q] == InteractionModel::AsynchronousMessage(messages_of(interactions)[second]));
}

impl NifPactBuilder {
    /// An empty contract in the legacy format.
    pub fn new(consumer: String, provider: String) -> (r: NifPactBuilder)
        ensures
            r@ == (PactModel {
                consumer: consumer@,
                provider: provider@,
                is_v4: false,
                interactions: Seq::empty(),
                plugins: Seq::empty(),
            }),
    {
        let r = NifPactBuilder {
            consumer,
            provider,
            is_v4: false,
            interactions: Vec::new(),
            plugins: Vec::new(),
        };
        assert(views(r.interactions@) =~= Seq::empty());
        assert(views(r.plugins@) =~= Seq::empty());
        r
    }

    /// An empty contract in the extended format.
    pub fn new_v4(consumer: String, provider: String) -> (r: NifPactBuilder)
        ensures
            r@ == (PactModel {
                consumer: consumer@,
                provider: provider@,
                is_v4: true,
                interactions: Seq::empty(),
                plugins: Seq::empty(),
            }),
    {
        let r = NifPactBuilder {
            consumer,
            provider,
            is_v4: true,
            interactions: Vec::new(),
            plugins: Vec::new(),
        };
        assert(views(r.interactions@) =~= Seq::empty());
        assert(views(r.plugins@) =~= Seq::empty());
        r
    }
}

/// An empty contract in the legacy format.
pub fn new(consumer: String, provider: String) -> (r: NifPactBuilder)
    ensures
        r@ == (PactModel {
            consumer: consumer@,
            provider: provider@,
            is_v4: false,
            interactions: Seq::empty(),
            plugins: Seq::empty(),
        }),
{
    NifPactBuilder::new(consumer, provider)
}

/// An empty contract in the extended format.
pub fn new_v4(consumer: String, provider: String) -> (r: NifPactBuilder)
    ensures
        r@ == (PactModel {
            consumer: consumer@,
            provider: provider@,
            is_v4: true,
            interactions: Seq::empty(),
            plugins: Seq::empty(),
        }),
{
    NifPactBuilder::new_v4(consumer, provider)
}

/// Whether the contract is in the extended format.
pub fn is_v4(builder: &NifPactBuilder) -> (r: bool)
    ensures
        r == builder@.is_v4,
{
    builder.is_v4
}

/// The description of an interaction.
fn description_of(interaction: &NifInteraction) -> (r: String)
    ensures
        r@ == description(interaction@),
{
    match &interaction.inner {
        InteractionResource::RequestResponse { description, .. } => description.clone(),
        InteractionResource::SynchronousHttp { description, .. } => description.clone(),
        InteractionResource::AsynchronousMessage(message) => message.description.clone(),
    }
}

/// Adds a copy of `interaction` behind the interactions that are there.
/// Fails with `InvalidArgument`, which carries the interaction's description,
/// and changes nothing, where the contract is in the legacy format and the
/// interaction is a message.
pub fn push_interaction(builder: &mut NifPactBuilder, interaction: &NifInteraction) -> (r: Result<
    (),
    PactError,
>)
    ensures
        pushed(old(builder)@, final(builder)@, interaction@, r),
{
    if !builder.is_v4 && interaction.is_message() {
        return Err(PactError::new(ErrorKind::InvalidArgument, description_of(interaction)));
    }
    builder.interactions.push(interaction.clone());
    assert(views(builder.interactions@) =~= views(old(builder).interactions@).push(interaction@));
    Ok(())
}

/// The plug-ins of a contract once `plugin` was activated for it: as they
/// were where it is among them, and with it behind them where not.
pub open spec fn with_plugin(
    plugins: Seq<(Seq<char>, Option<Seq<char>>)>,
    plugin: (Seq<char>, Option<Seq<char>>),
) -> Seq<(Seq<char>, Option<Seq<char>>)> {
    if plugins.contains(plugin) {
        plugins
    } else {
        plugins.push(plugin)
    }
}

/// Records that a plug-in was loaded for the contract. Loading it is the
/// caller's work and has to be done before an interaction that needs the
/// plug-in is built. A plug-in is recorded once.
pub fn activate_plugin(builder: &mut NifPactBuilder, name: String, version: Option<String>)
    ensures
        final(builder)@ == (PactModel {
            plugins: with_plugin(old(builder)@.plugins, (name@, text_of(version))),
            ..old(builder)@
        }),
{
    let ghost plugins = builder@.plugins;
    let ghost plugin = (name@, text_of(version));
    let mut i: usize = 0;
    while i < builder.plugins.len()
        invariant
            i <= builder.plugins.len(),
            *builder == *old(builder),
            plugins == builder@.plugins,
            plugin == (name@, text_of(version)),
            forall|j: int| 0 <= j < i ==> #[trigger] plugins[j] != plugin,
        decreases builder.plugins.len() - i,
    {
        assert(plugins[i as int] == builder.plugins@[i as int]@);
        if builder.plugins[i].is(&name, &version) {
            return ;
        }
        i += 1;
    }
    builder.plugins.push(PluginRef { name, version });
    assert(views(builder.plugins@) =~= plugins.push(plugin));
}

/// The messages of the contract, in the order they were pushed.
pub fn messages(builder: &NifPactBuilder) -> (r: Vec<NifAsynchronousMessage>)
    ensures
        views(r@) == messages_of(builder@.interactions),
{
    let ghost all = builder@.interactions;
    let mut out: Vec<NifAsynchronousMessage> = Vec::new();
    let mut i: usize = 0;
    assert(all.take(0) =~= Seq::empty());
    assert(views(out@) =~= Seq::empty());
    while i < builder.interactions.len()
        invariant
            i <= builder.interactions.len(),
            all == builder@.interactions,
            all.len() == builder.interactions.len(),
            views(out@) == messages_of(all.take(i as int)),
        decreases builder.interactions.len() - i,
    {
        let ghost before = views(out@);
        assert(all.take(i + 1).drop_last() =~= all.take(i as int));
        assert(all.take(i + 1).last() == builder.interactions@[i as int]@);
        match &builder.interactions[i].inner {
            InteractionResource::AsynchronousMessage(message) => {
                out.push(message.clone());
                assert(views(out@) =~= before.push(message@));
            },
            _ => {},
        }
        i += 1;
    }
    assert(all.take(i as int) =~= all);
    out
}

} // verus!
