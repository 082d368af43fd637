//! The provider registry: providers by name, built on first use.

use vstd::prelude::*;
use vstd::hash_map::StringHashMap;
use vstd::string::*;
use crate::error::ManagerError;

verus! {

/// What a registry holds: the providers that stand ready and the builders
/// of those that do not, each by name. Where a name has both, the provider
/// counts.
pub struct RegistryView<P, B> {
    pub providers: Map<Seq<char>, P>,
    pub builders: Map<Seq<char>, B>,
}

impl<P, B> RegistryView<P, B> {
    /// A provider or a builder is registered under `name`.
    pub open spec fn knows(self, name: Seq<char>) -> bool {
        self.providers.contains_key(name) || self.builders.contains_key(name)
    }
}

/// The names in `names` are those under which `registry` holds a provider
/// or a builder, each once.
pub open spec fn lists<P, B>(names: Seq<Seq<char>>, registry: RegistryView<P, B>) -> bool {
    &&& forall|i: int| 0 <= i < names.len() ==> registry.knows(#[trigger] names[i])
    &&& forall|key: Seq<char>|
        registry.knows(key) ==> exists|i: int| 0 <= i < names.len() && #[trigger] names[i] == key
    &&& forall|i: int, j: int| 0 <= i < j < names.len() ==> names[i] != names[j]
}

/// The texts of a list of strings.
pub open spec fn texts(names: Seq<String>) -> Seq<Seq<char>> {
    Seq::new(names.len(), |i: int| names[i]@)
}

/// Every builder can be called.
pub open spec fn callable<B, P, E>(builders: Map<Seq<char>, B>) -> bool where
    B: Fn() -> Result<P, E>,
 {
    forall|key: Seq<char>| builders.contains_key(key) ==> call_requires(#[trigger] builders[key], ())
}

/// A list stays right when a provider or a builder is set under a name
/// that it has, or under a new name that is added at its end.
proof fn lemma_lists_set<P, B>(
    names: Seq<Seq<char>>,
    before: RegistryView<P, B>,
    after: RegistryView<P, B>,
    name: Seq<char>,
)
    requires
        lists(names, before),
        forall|key: Seq<char>| after.knows(key) <==> before.knows(key) || key == name,
    ensures
        before.knows(name) ==> lists(names, after),
        !before.knows(name) ==> lists(names.push(name), after),
{
    if before.knows(name) {
        assert forall|key: Seq<char>| after.knows(key) implies exists|i: int|
            0 <= i < names.len() && #[trigger] names[i] == key by {
            assert(before.knows(key));
        }
    } else {
        let longer = names.push(name);
        assert forall|key: Seq<char>| after.knows(key) implies exists|i: int|
            0 <= i < longer.len() && #[trigger] longer[i] == key by {
            if key == name {
                assert(longer[names.len() as int] == key);
            } else {
                let i = choose|i: int| 0 <= i < names.len() && #[trigger] names[i] == key;
                assert(longer[i] == key);
            }
        }
        assert forall|i: int| 0 <= i < longer.len() implies after.knows(#[trigger] longer[i]) by {
            if i < names.len() {
                assert(before.knows(names[i]));
            }
        }
        assert forall|i: int, j: int| 0 <= i < j < longer.len() implies longer[i] != longer[j] by {
            assert(before.knows(names[i]));
        }
    }
}

/// Collects providers and builders of providers for a [`ProviderManager`].
#[verifier::reject_recursive_types(P)]
#[verifier::reject_recursive_types(B)]
pub struct ProviderManagerBuilder<P, B> {
    names: Vec<String>,
    providers: StringHashMap<P>,
    builders: StringHashMap<B>,
}

/// Resolves the name of a provider to the provider, which it builds when
/// the name is first asked for.
#[verifier::reject_recursive_types(P)]
#[verifier::reject_recursive_types(B)]
pub struct ProviderManager<P, B> {
    names: Vec<String>,
    providers: StringHashMap<P>,
    builders: StringHashMap<B>,
}

impl<P, B> View for ProviderManagerBuilder<P, B> {
    type V = RegistryView<P, B>;

    closed spec fn view(&self) -> RegistryView<P, B> {
        RegistryView { providers: self.providers@, builders: self.builders@ }
    }
}

impl<P, B> View for ProviderManager<P, B> {
    type V = RegistryView<P, B>;

    closed spec fn view(&self) -> RegistryView<P, B> {
        RegistryView { providers: self.providers@, builders: self.builders@ }
    }
}

impl<P, B> ProviderManagerBuilder<P, B> {
    /// The list of names is that of the providers and builders held.
    pub closed spec fn listed(&self) -> bool {
        lists(texts(self.names@), self@)
    }
}

impl<P, B> ProviderManager<P, B> {
    /// The list of names is that of the providers and builders held.
    pub closed spec fn listed(&self) -> bool {
        lists(texts(self.names@), self@)
    }
}

impl<P, B> Default for ProviderManagerBuilder<P, B> {
    /// A builder without providers.
    fn default() -> (r: Self)
        ensures
            r.listed(),
            r@.providers == Map::<Seq<char>, P>::empty(),
            r@.builders == Map::<Seq<char>, B>::empty(),
    {
        ProviderManagerBuilder {
            names: Vec::new(),
            providers: StringHashMap::new(),
            builders: StringHashMap::new(),
        }
    }
}

impl<P, E, B: Fn() -> Result<P, E>> ProviderManagerBuilder<P, B> {
    /// The names are listed as registered and every builder can be called.
    pub open spec fn wf(&self) -> bool {
        self.listed() && callable::<B, P, E>(self@.builders)
    }

    /// Registers a provider that stands ready. It takes the place of a
    /// provider registered under the name before.
    pub fn add_provider(self, name: &str, provider: P) -> (r: Self)
        requires
            self.wf(),
        ensures
            r.wf(),
            r@.providers == self@.providers.insert(name@, provider),
            r@.builders == self@.builders,
    {
        let ProviderManagerBuilder { names, providers, builders } = self;
        let mut names = names;
        let mut providers = providers;
        let ghost before = names@;
        if !providers.contains_key(name) && !builders.contains_key(name) {
            names.push(name.to_owned());
            assert(texts(names@) =~= texts(before).push(name@));
        }
        proof {
            lemma_lists_set(
                texts(before),
                self@,
                RegistryView {
                    providers: providers@.insert(name@, provider),
                    builders: builders@,
                },
                name@,
            );
        }
        providers.insert(name.to_owned(), provider);
        ProviderManagerBuilder { names, providers, builders }
    }

    /// Registers the builder of a provider. It takes the place of a builder
    /// registered under the name before.
    pub fn add_provider_builder(self, name: &str, builder: B) -> (r: Self)
        requires
            self.wf(),
            call_requires(builder, ()),
        ensures
            r.wf(),
            r@.providers == self@.providers,
            r@.builders == self@.builders.insert(name@, builder),
    {
        let ProviderManagerBuilder { names, providers, builders } = self;
        let mut names = names;
        let mut builders = builders;
        let ghost before = names@;
        if !providers.contains_key(name) && !builders.contains_key(name) {
            names.push(name.to_owned());
            assert(texts(names@) =~= texts(before).push(name@));
        }
        proof {
            lemma_lists_set(
                texts(before),
                self@,
                RegistryView {
                    providers: providers@,
                    builders: builders@.insert(name@, builder),
                },
                name@,
            );
        }
        builders.insert(name.to_owned(), builder);
        ProviderManagerBuilder { names, providers, builders }
    }

    /// The registry of what was collected.
    pub fn build(self) -> (r: ProviderManager<P, B>)
        requires
            self.wf(),
        ensures
            r.wf(),
            r@ == self@,
    {
        ProviderManager { names: self.names, providers: self.providers, builders: self.builders }
    }
}

impl<P, E, B: Fn() -> Result<P, E>> ProviderManager<P, B> {
    /// The names are listed as registered and every builder can be called.
    pub open spec fn wf(&self) -> bool {
        self.listed() && callable::<B, P, E>(self@.builders)
    }

    /// The names of all providers, built or not, each once.
    pub fn get_list_providers(&self) -> (list: Vec<&str>)
        requires
            self.wf(),
        ensures
            lists(Seq::new(list@.len(), |i: int| list@[i]@), self@),
    {
        let mut list: Vec<&str> = Vec::new();
        let mut i: usize = 0;
        while i < self.names.len()
            invariant
                i <= self.names.len(),
                list@.len() == i,
                forall|k: int| 0 <= k < i ==> list@[k]@ == self.names@[k]@,
            decreases self.names.len() - i,
        {
            list.push(self.names[i].as_str());
            i = i + 1;
        }
        assert(Seq::new(list@.len(), |i: int| list@[i]@) =~= texts(self.names@));
        list
    }

    /// Whether a provider is registered under the name, built or not. No
    /// provider is built.
    pub fn is_supported(&self, provider_name: &str) -> (r: Result<(), ManagerError<E>>)
        requires
            self.wf(),
        ensures
            self@.knows(provider_name@) ==> r is Ok,
            !self@.knows(provider_name@) ==> (r matches Err(ManagerError::NotSupport(n)) && n@
                == provider_name@),
    {
        if self.providers.contains_key(provider_name) || self.builders.contains_key(provider_name) {
            return Ok(());
        }
        Err(ManagerError::NotSupport(provider_name.to_owned()))
    }

    /// The provider registered under the name. A provider that stands ready
    /// is handed out as it is. Else the builder registered under the name is
    /// called: the provider that it returns takes the builder's place and is
    /// handed out; where it fails, its error is returned and the registry
    /// stays as it was.
    pub fn get_provider(&mut self, name: &str) -> (r: Result<&P, ManagerError<E>>)
        requires
            old(self).wf(),
        ensures
            final(self).wf(),
            forall|key: Seq<char>| final(self)@.knows(key) <==> old(self)@.knows(key),
            forall|key: Seq<char>|
                old(self)@.providers.contains_key(key) ==> final(self)@.providers.contains_key(key),
            match r {
                Ok(provider) => if old(self)@.providers.contains_key(name@) {
                    *provider == old(self)@.providers[name@] && final(self)@ == old(self)@
                } else {
                    &&& old(self)@.builders.contains_key(name@)
                    &&& call_ensures(old(self)@.builders[name@], (), Ok::<P, E>(*provider))
                    &&& final(self)@.providers == old(self)@.providers.insert(name@, *provider)
                    &&& final(self)@.builders == old(self)@.builders.remove(name@)
                },
                Err(ManagerError::NotSupport(unknown)) => {
                    &&& unknown@ == name@
                    &&& !old(self)@.knows(name@)
                    &&& final(self)@ == old(self)@
                },
                Err(ManagerError::Build(failed, error)) => {
                    &&& failed@ == name@
                    &&& !old(self)@.providers.contains_key(name@)
                    &&& old(self)@.builders.contains_key(name@)
                    &&& call_ensures(old(self)@.builders[name@], (), Err::<P, E>(error))
                    &&& final(self)@ == old(self)@
                },
            },
    {
        if !self.providers.contains_key(name) {
            let built = match self.builders.get(name) {
                Some(builder) => builder(),
                None => {
                    return Err(ManagerError::NotSupport(name.to_owned()));
                },
            };
            let provider = match built {
                Ok(provider) => provider,
                Err(error) => {
                    return Err(ManagerError::Build(name.to_owned(), error));
                },
            };
            proof {
                lemma_lists_set(
                    texts(self.names@),
                    self@,
                    RegistryView {
                        providers: self.providers@.insert(name@, provider),
                        builders: self.builders@.remove(name@),
                    },
                    name@,
                );
            }
            self.providers.insert(name.to_owned(), provider);
            self.builders.remove(name);
        }
        match self.providers.get(name) {
            Some(provider) => Ok(provider),
            None => Err(ManagerError::NotSupport(name.to_owned())),
        }
    }
}

} // verus!
