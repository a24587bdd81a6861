//! Knowledge sources and the tiers that order them.

use vstd::prelude::*;
use vstd::string::*;

verus! {

/// Identifier of the bootstrap source, which configures the engine and is
/// loaded before anything else.
pub const BOOTSTRAP_SOURCE: &'static str = "prolog/init.pl";

/// Identifier of the utilities module.
pub const UTILITIES_SOURCE: &'static str = "prolog/util.pro";

/// Identifier of the ontology-support module.
pub const ONTOLOGY_SUPPORT_SOURCE: &'static str = "prolog/ontology.pl";

/// Identifier of the reasoner module.
pub const REASONER_SOURCE: &'static str = "prolog/reasoner.pl";

/// Identifier of the test-framework module.
pub const TEST_FRAMEWORK_SOURCE: &'static str = "prolog/tests.pl";

/// The layer of the knowledge base that a source belongs to. Layers are
/// loaded in the order in which they are declared here.
#[derive(Clone, Copy, Debug, PartialEq, Eq, Structural)]
pub enum Tier {
    Bootstrap,
    CoreModule,
    Ontology,
    Scenario,
}

impl Tier {
    /// Place of the tier in the load order.
    pub open spec fn rank(self) -> nat {
        match self {
            Tier::Bootstrap => 0,
            Tier::CoreModule => 1,
            Tier::Ontology => 2,
            Tier::Scenario => 3,
        }
    }

    /// Whether sources of this tier are files under the knowledge-base root,
    /// which the loader resolves and checks before it hands them to the
    /// engine. Ontologies and scenarios are resolved by the engine itself.
    pub open spec fn is_file_based(self) -> bool {
        self == Tier::Bootstrap || self == Tier::CoreModule
    }

    /// Whether sources of this tier are files under the knowledge-base root.
    pub fn file_based(self) -> (answer: bool)
        ensures
            answer == self.is_file_based(),
    {
        match self {
            Tier::Bootstrap => true,
            Tier::CoreModule => true,
            Tier::Ontology => false,
            Tier::Scenario => false,
        }
    }
}

/// The core reasoning modules. Each module's rules refer to predicates that
/// the modules declared before it define, so they are loaded in the order of
/// declaration and in no other.
#[derive(Clone, Copy, Debug, PartialEq, Eq, Structural)]
pub enum CoreModule {
    Utilities,
    OntologySupport,
    Reasoner,
    TestFramework,
}

impl CoreModule {
    /// Place of the module in the load order.
    pub open spec fn position(self) -> int {
        match self {
            CoreModule::Utilities => 0,
            CoreModule::OntologySupport => 1,
            CoreModule::Reasoner => 2,
            CoreModule::TestFramework => 3,
        }
    }

    /// The modules in load order.
    pub open spec fn load_order() -> Seq<CoreModule> {
        seq![
            CoreModule::Utilities,
            CoreModule::OntologySupport,
            CoreModule::Reasoner,
            CoreModule::TestFramework,
        ]
    }

    /// Identifier of the module's source.
    pub open spec fn source_id_view(self) -> Seq<char> {
        match self {
            CoreModule::Utilities => UTILITIES_SOURCE@,
            CoreModule::OntologySupport => ONTOLOGY_SUPPORT_SOURCE@,
            CoreModule::Reasoner => REASONER_SOURCE@,
            CoreModule::TestFramework => TEST_FRAMEWORK_SOURCE@,
        }
    }

    /// The module as a knowledge source.
    pub open spec fn source_view(self) -> SourceView {
        SourceView { tier: Tier::CoreModule, id: self.source_id_view() }
    }

    /// The modules in load order.
    pub fn in_load_order() -> (modules: [CoreModule; 4])
        ensures
            modules@ == CoreModule::load_order(),
    {
        let modules = [
            CoreModule::Utilities,
            CoreModule::OntologySupport,
            CoreModule::Reasoner,
            CoreModule::TestFramework,
        ];
        assert(modules@ =~= CoreModule::load_order());
        modules
    }

    /// Identifier of the module's source.
    pub fn source_id(self) -> (id: &'static str)
        ensures
            id@ == self.source_id_view(),
    {
        match self {
            CoreModule::Utilities => UTILITIES_SOURCE,
            CoreModule::OntologySupport => ONTOLOGY_SUPPORT_SOURCE,
            CoreModule::Reasoner => REASONER_SOURCE,
            CoreModule::TestFramework => TEST_FRAMEWORK_SOURCE,
        }
    }

    /// The module as a knowledge source.
    pub fn source(self) -> (source: KnowledgeSource)
        ensures
            source@ == self.source_view(),
    {
        KnowledgeSource { tier: Tier::CoreModule, id: String::from_str(self.source_id()) }
    }
}

/// Mathematical value of a [`KnowledgeSource`].
pub struct SourceView {
    pub tier: Tier,
    pub id: Seq<char>,
}

/// A unit of knowledge to ingest: the tier it belongs to and the identifier
/// that names it, a path below the knowledge-base root.
#[derive(Debug, PartialEq, Eq)]
pub struct KnowledgeSource {
    pub tier: Tier,
    pub id: String,
}

impl View for KnowledgeSource {
    type V = SourceView;

    open spec fn view(&self) -> SourceView {
        SourceView { tier: self.tier, id: self.id@ }
    }
}

impl Clone for KnowledgeSource {
    fn clone(&self) -> (copy: Self)
        ensures
            copy@ == self@,
    {
        KnowledgeSource { tier: self.tier, id: self.id.clone() }
    }
}

impl SourceView {
    /// The bootstrap source.
    pub open spec fn bootstrap() -> SourceView {
        SourceView { tier: Tier::Bootstrap, id: BOOTSTRAP_SOURCE@ }
    }
}

impl KnowledgeSource {
    /// A source of the given tier.
    pub fn new(tier: Tier, id: &str) -> (source: KnowledgeSource)
        ensures
            source@ == (SourceView { tier, id: id@ }),
    {
        KnowledgeSource { tier, id: String::from_str(id) }
    }

    /// The bootstrap source.
    pub fn bootstrap() -> (source: KnowledgeSource)
        ensures
            source@ == SourceView::bootstrap(),
    {
        KnowledgeSource::new(Tier::Bootstrap, BOOTSTRAP_SOURCE)
    }
}

} // verus!
