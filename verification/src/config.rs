//! The configured services: one set of credentials per provider name, and the
//! name of the provider that is used by default.

use vstd::prelude::*;
use vstd::string::*;
use vstd::utf8::*;
use crate::text::same_text;

verus! {

pub const MASK: &'static str = "***";

pub const OPENAI_DEFAULT_MODEL: &'static str = "gpt-4o-mini";

/// The credentials and settings of one provider.
#[derive(Debug, PartialEq, Eq)]
pub struct ServiceConfig {
    pub api_token: String,
    pub model: String,
}

/// What a `ServiceConfig` holds, as sequences of characters.
pub struct ServiceConfigView {
    pub api_token: Seq<char>,
    pub model: Seq<char>,
}

impl View for ServiceConfig {
    type V = ServiceConfigView;

    open spec fn view(&self) -> ServiceConfigView {
        ServiceConfigView { api_token: self.api_token@, model: self.model@ }
    }
}

impl Clone for ServiceConfig {
    fn clone(&self) -> (r: Self)
        ensures
            r@ == self@,
    {
        ServiceConfig { api_token: self.api_token.clone(), model: self.model.clone() }
    }
}

/// Whether a token can be shown masked: one of more than five bytes must
/// have a character end at its fifth byte.
pub open spec fn maskable(token: Seq<char>) -> bool {
    encode_utf8(token).len() > 5 ==> is_char_boundary(encode_utf8(token), 5)
}

/// A token as it is shown: its first five bytes, or all of it where it has
/// no more, and the mask behind them.
pub open spec fn masked(token: Seq<char>) -> Seq<char> {
    if encode_utf8(token).len() > 5 {
        decode_utf8(encode_utf8(token).subrange(0, 5)) + MASK@
    } else {
        token + MASK@
    }
}

/// What `ServiceConfig::to_text` gives.
pub open spec fn service_text(service: ServiceConfigView) -> Seq<char> {
    "API Token: "@ + masked(service.api_token) + "\nModel: "@ + service.model + "\n"@
}

/// The part of a listing that shows the service `service` under `name`.
pub open spec fn entry_text(name: Seq<char>, service: ServiceConfigView) -> Seq<char> {
    "\nService: "@ + name + "\n"@ + service_text(service) + "\n"@
}

/// The parts of a listing for `entries`, one behind the other.
pub open spec fn entries_text(entries: Seq<(String, ServiceConfig)>) -> Seq<char>
    decreases entries.len(),
{
    if entries.len() == 0 {
        Seq::empty()
    } else {
        entries_text(entries.drop_last()) + entry_text(entries.last().0@, entries.last().1@)
    }
}

/// The model that is proposed for a service when it is set up: one for the
/// OpenAI-style provider, none for any other name.
pub open spec fn default_model_of(service: Seq<char>) -> Option<Seq<char>> {
    match crate::client::provider_named(service) {
        Some(crate::client::Provider::OpenAI) => Some(OPENAI_DEFAULT_MODEL@),
        _ => None,
    }
}

/// The model that is proposed for a service when it is set up; `None`
/// where the user has to name the model.
pub fn default_model(service: &str) -> (r: Option<&'static str>)
    ensures
        match r {
            Some(model) => default_model_of(service@) == Some(model@),
            None => default_model_of(service@) is None,
        },
{
    match crate::client::provider_by_name(service) {
        Some(crate::client::Provider::OpenAI) => Some(OPENAI_DEFAULT_MODEL),
        _ => None,
    }
}

impl ServiceConfig {
    /// Whether the token can be shown masked.
    pub fn can_mask(&self) -> (r: bool)
        ensures
            r == maskable(self.api_token@),
    {
        let token = self.api_token.as_str();
        token.as_bytes().len() <= 5 || token.is_char_boundary(5)
    }

    /// The token as it is shown: its first five bytes and the mask.
    pub fn masked_token(&self) -> (r: String)
        requires
            maskable(self.api_token@),
        ensures
            r@ == masked(self.api_token@),
    {
        let token = self.api_token.as_str();
        if token.as_bytes().len() > 5 {
            let (head, _) = token.split_at(5);
            proof {
                encode_utf8_decode_utf8(head@);
            }
            String::from_str(head).concat(MASK)
        } else {
            String::from_str(token).concat(MASK)
        }
    }

    /// The settings as two lines for the user, with the token masked.
    pub fn to_text(&self) -> (r: String)
        requires
            maskable(self.api_token@),
        ensures
            r@ == service_text(self@),
    {
        String::from_str("API Token: ").concat(self.masked_token().as_str()).concat(
            "\nModel: ",
        ).concat(self.model.as_str()).concat("\n")
    }
}

/// The services by name, in the order in which they were registered, and the
/// name of the default one. Where two entries bear one name, the first of
/// them is the service of that name.
#[derive(Debug, PartialEq, Eq)]
pub struct Config {
    pub default_service: String,
    pub services: Vec<(String, ServiceConfig)>,
}

/// Entry `i` of `entries` is the first one named `name`.
pub open spec fn first_named(entries: Seq<(String, ServiceConfig)>, name: Seq<char>, i: int) -> bool {
    &&& 0 <= i < entries.len()
    &&& entries[i].0@ == name
    &&& forall|j: int| 0 <= j < i ==> (#[trigger] entries[j]).0@ != name
}

/// The settings of the first entry of `entries` that is named `name`.
pub open spec fn settings_named(entries: Seq<(String, ServiceConfig)>, name: Seq<char>) -> Option<
    ServiceConfigView,
> {
    if exists|i: int| first_named(entries, name, i) {
        Some(entries[choose|i: int| first_named(entries, name, i)].1@)
    } else {
        None
    }
}

/// No two entries of `entries` bear the same name.
pub open spec fn distinct_names(entries: Seq<(String, ServiceConfig)>) -> bool {
    forall|i: int, j: int|
        0 <= i < j < entries.len() ==> (#[trigger] entries[i]).0@ != (#[trigger] entries[j]).0@
}

/// Every token in `entries` can be shown masked.
pub open spec fn all_maskable(entries: Seq<(String, ServiceConfig)>) -> bool {
    forall|i: int| 0 <= i < entries.len() ==> maskable((#[trigger] entries[i]).1.api_token@)
}

/// The text of the error for a name that no service has.
pub open spec fn not_found_text(name: Seq<char>) -> Seq<char> {
    "Service '"@ + name + "' not found"@
}

/// What `Config::to_text` gives.
pub open spec fn config_text(default_service: Seq<char>, entries: Seq<(String, ServiceConfig)>) -> Seq<
    char,
> {
    "Default Service: "@ + default_service + "\n"@ + entries_text(entries)
}

/// Where entry `i` is the first one named `name`, the settings under `name`
/// are those of entry `i`.
pub proof fn lemma_first_named_settings(entries: Seq<(String, ServiceConfig)>, name: Seq<char>, i: int)
    requires
        first_named(entries, name, i),
    ensures
        settings_named(entries, name) == Some(entries[i].1@),
{
    let j = choose|j: int| first_named(entries, name, j);
    assert(first_named(entries, name, j));
    if j < i {
        assert(entries[j].0@ != name);
    }
    if i < j {
        assert(entries[i].0@ != name);
    }
}

/// Where no entry is named `name`, there are no settings under `name`.
pub proof fn lemma_unnamed_settings(entries: Seq<(String, ServiceConfig)>, name: Seq<char>)
    requires
        forall|j: int| 0 <= j < entries.len() ==> (#[trigger] entries[j]).0@ != name,
    ensures
        settings_named(entries, name) is None,
{
    if exists|i: int| first_named(entries, name, i) {
        let i = choose|i: int| first_named(entries, name, i);
        assert(entries[i].0@ != name);
    }
}

impl Config {
    /// The settings of the service named `name`, if there is one.
    pub open spec fn service_named(&self, name: Seq<char>) -> Option<ServiceConfigView> {
        settings_named(self.services@, name)
    }

    /// Whether a service is registered under `name`.
    pub open spec fn has_service(&self, name: Seq<char>) -> bool {
        self.service_named(name) is Some
    }

    /// Whether the configuration is as a map from names to services: no
    /// name is borne by two services.
    pub open spec fn well_formed(&self) -> bool {
        distinct_names(self.services@)
    }

    /// A configuration without services, with `default_service` as the name
    /// of the default one.
    pub fn new(default_service: &str) -> (r: Self)
        ensures
            r.default_service@ == default_service@,
            r.services@.len() == 0,
            r.well_formed(),
    {
        Config { default_service: String::from_str(default_service), services: Vec::new() }
    }

    /// Whether no name is borne by two services.
    pub fn is_well_formed(&self) -> (r: bool)
        ensures
            r == self.well_formed(),
    {
        let mut j: usize = 0;
        while j < self.services.len()
            invariant
                j <= self.services.len(),
                distinct_names(self.services@.take(j as int)),
            decreases self.services.len() - j,
        {
            let mut i: usize = 0;
            while i < j
                invariant
                    i <= j < self.services.len(),
                    forall|k: int| 0 <= k < i ==> (#[trigger] self.services@[k]).0@ != self.services@[j as int].0@,
                decreases j - i,
            {
                if same_text(self.services[i].0.as_str(), self.services[j].0.as_str()) {
                    return false;
                }
                i += 1;
            }
            proof {
                let longer = self.services@.take(j + 1);
                let shorter = self.services@.take(j as int);
                assert forall|a: int, b: int| 0 <= a < b < longer.len() implies (#[trigger] longer[a]).0@
                    != (#[trigger] longer[b]).0@ by {
                    if b < j {
                        assert(shorter[a] == longer[a]);
                        assert(shorter[b] == longer[b]);
                    } else {
                        assert(self.services@[a].0@ != self.services@[j as int].0@);
                    }
                }
            }
            j += 1;
        }
        proof {
            assert(self.services@.take(j as int) =~= self.services@);
        }
        true
    }

    /// The index of the first service named `name`, if there is one.
    pub fn position(&self, name: &str) -> (r: Option<usize>)
        ensures
            match r {
                Some(i) => first_named(self.services@, name@, i as int) && self.service_named(name@)
                    == Some(self.services@[i as int].1@),
                None => !self.has_service(name@) && forall|j: int|
                    0 <= j < self.services@.len() ==> (#[trigger] self.services@[j]).0@ != name@,
            },
    {
        let mut i: usize = 0;
        while i < self.services.len()
            invariant
                i <= self.services.len(),
                forall|j: int| 0 <= j < i ==> (#[trigger] self.services@[j]).0@ != name@,
            decreases self.services.len() - i,
        {
            if same_text(self.services[i].0.as_str(), name) {
                proof {
                    lemma_first_named_settings(self.services@, name@, i as int);
                }
                return Some(i);
            }
            i += 1;
        }
        proof {
            lemma_unnamed_settings(self.services@, name@);
        }
        None
    }

    /// The settings of the default service: those of the first service that
    /// bears the default name, or `None` where no service bears it.
    pub fn get_default_service_config(&self) -> (r: Option<&ServiceConfig>)
        ensures
            match r {
                Some(found) => self.service_named(self.default_service@) == Some(found@),
                None => !self.has_service(self.default_service@),
            },
    {
        match self.position(self.default_service.as_str()) {
            Some(i) => Some(&self.services[i].1),
            None => None,
        }
    }

    /// Makes `service_name` the default where a service bears that name, and
    /// otherwise changes nothing and says which name was not found.
    pub fn set_default_service(&mut self, service_name: &str) -> (r: Result<(), String>)
        ensures
            final(self).services == old(self).services,
            final(self).well_formed() == old(self).well_formed(),
            old(self).has_service(service_name@) ==> r is Ok && final(self).default_service@
                == service_name@,
            !old(self).has_service(service_name@) ==> final(self).default_service == old(
                self,
            ).default_service && r is Err && r->Err_0@ == not_found_text(service_name@),
    {
        match self.position(service_name) {
            Some(_) => {
                self.default_service = String::from_str(service_name);
                Ok(())
            },
            None => {
                let message = String::from_str("Service '").concat(service_name).concat(
                    "' not found",
                );
                Err(message)
            },
        }
    }

    /// Registers `service` under `name` and makes it the default: it takes
    /// the place of the service that bore the name, or comes last where none
    /// did. The services under other names stay as they are.
    pub fn register(&mut self, name: &str, service: ServiceConfig)
        ensures
            final(self).default_service@ == name@,
            final(self).service_named(name@) == Some(service@),
            forall|other: Seq<char>|
                other != name@ ==> #[trigger] final(self).service_named(other) == old(
                    self,
                ).service_named(other),
            old(self).has_service(name@) ==> final(self).services@.len() == old(
                self,
            ).services@.len(),
            !old(self).has_service(name@) ==> final(self).services@.len() == old(
                self,
            ).services@.len() + 1,
            old(self).well_formed() ==> final(self).well_formed(),
    {
        let ghost before = self.services@;
        let ghost settings = service@;
        match self.position(name) {
            Some(i) => {
                self.services.set(i, (String::from_str(name), service));
                proof {
                    let after = self.services@;
                    assert(first_named(after, name@, i as int));
                    lemma_first_named_settings(after, name@, i as int);
                    assert(distinct_names(before) ==> distinct_names(after)) by {
                        assert forall|a: int, b: int|
                            distinct_names(before) && 0 <= a < b < after.len() implies (
                        #[trigger] after[a]).0@ != (#[trigger] after[b]).0@ by {
                            assert(before[a].0@ == after[a].0@);
                            assert(before[b].0@ == after[b].0@);
                        }
                    }
                    assert forall|other: Seq<char>| other != name@ implies #[trigger] settings_named(
                        after,
                        other,
                    ) == settings_named(before, other) by {
                        lemma_same_names(before, after, other);
                    }
                }
            },
            None => {
                self.services.push((String::from_str(name), service));
                proof {
                    let after = self.services@;
                    let last = after.len() - 1;
                    assert(first_named(after, name@, last));
                    lemma_first_named_settings(after, name@, last);
                    assert(distinct_names(before) ==> distinct_names(after)) by {
                        assert forall|a: int, b: int|
                            distinct_names(before) && 0 <= a < b < after.len() implies (
                        #[trigger] after[a]).0@ != (#[trigger] after[b]).0@ by {
                            assert(after[a] == before[a]);
                            if b < last {
                                assert(after[b] == before[b]);
                            }
                        }
                    }
                    assert forall|other: Seq<char>| other != name@ implies #[trigger] settings_named(
                        after,
                        other,
                    ) == settings_named(before, other) by {
                        lemma_longer_by_another_name(before, after, other);
                    }
                }
            },
        }
        self.default_service = String::from_str(name);
    }

    /// Whether every token can be shown masked.
    pub fn can_list(&self) -> (r: bool)
        ensures
            r == all_maskable(self.services@),
    {
        let mut i: usize = 0;
        while i < self.services.len()
            invariant
                i <= self.services.len(),
                forall|j: int| 0 <= j < i ==> maskable((#[trigger] self.services@[j]).1.api_token@),
            decreases self.services.len() - i,
        {
            if !self.services[i].1.can_mask() {
                return false;
            }
            i += 1;
        }
        true
    }

    /// The configuration as lines for the user: the default service, and
    /// each service in turn under its name, with its token masked.
    pub fn to_text(&self) -> (r: String)
        requires
            all_maskable(self.services@),
        ensures
            r@ == config_text(self.default_service@, self.services@),
    {
        let mut text = String::from_str("Default Service: ").concat(
            self.default_service.as_str(),
        ).concat("\n");
        let mut i: usize = 0;
        proof {
            assert(self.services@.take(0) =~= Seq::empty());
            assert(text@ =~= config_text(self.default_service@, self.services@.take(0)));
        }
        while i < self.services.len()
            invariant
                i <= self.services.len(),
                all_maskable(self.services@),
                text@ == config_text(self.default_service@, self.services@.take(i as int)),
            decreases self.services.len() - i,
        {
            let entry = &self.services[i];
            let part = String::from_str("\nService: ").concat(entry.0.as_str()).concat("\n").concat(
                entry.1.to_text().as_str(),
            ).concat("\n");
            proof {
                let shown = self.services@.take(i + 1);
                assert(shown.drop_last() =~= self.services@.take(i as int));
                assert(shown.last() == self.services@[i as int]);
                assert(part@ == entry_text(entry.0@, entry.1@));
                assert(text@ + part@ =~= config_text(self.default_service@, shown));
            }
            text = text.concat(part.as_str());
            i += 1;
        }
        proof {
            assert(self.services@.take(i as int) =~= self.services@);
        }
        text
    }
}

/// Two lists that bear the same names at the same places, and the same
/// settings wherever the name is `other`, hold the same settings under
/// `other`.
proof fn lemma_same_names(
    before: Seq<(String, ServiceConfig)>,
    after: Seq<(String, ServiceConfig)>,
    other: Seq<char>,
)
    requires
        before.len() == after.len(),
        forall|j: int| 0 <= j < before.len() ==> (#[trigger] before[j]).0@ == after[j].0@,
        forall|j: int|
            0 <= j < before.len() && (#[trigger] before[j]).0@ == other ==> before[j].1@
                == after[j].1@,
    ensures
        settings_named(after, other) == settings_named(before, other),
{
    if exists|i: int| first_named(before, other, i) {
        let i = choose|i: int| first_named(before, other, i);
        assert(first_named(after, other, i)) by {
            assert(before[i].0@ == after[i].0@);
            assert forall|j: int| 0 <= j < i implies (#[trigger] after[j]).0@ != other by {
                assert(before[j].0@ == after[j].0@);
            }
        }
        lemma_first_named_settings(before, other, i);
        lemma_first_named_settings(after, other, i);
        assert(before[i].1@ == after[i].1@);
    } else {
        if exists|i: int| first_named(after, other, i) {
            let i = choose|i: int| first_named(after, other, i);
            assert(first_named(before, other, i)) by {
                assert(before[i].0@ == after[i].0@);
                assert forall|j: int| 0 <= j < i implies (#[trigger] before[j]).0@ != other by {
                    assert(before[j].0@ == after[j].0@);
                    assert(after[j].0@ != other);
                }
            }
        }
    }
}

/// A list that has grown by one entry of another name holds under `other`
/// what it held.
proof fn lemma_longer_by_another_name(
    before: Seq<(String, ServiceConfig)>,
    after: Seq<(String, ServiceConfig)>,
    other: Seq<char>,
)
    requires
        after.len() == before.len() + 1,
        forall|j: int| 0 <= j < before.len() ==> (#[trigger] after[j]) == before[j],
        after.last().0@ != other,
    ensures
        settings_named(after, other) == settings_named(before, other),
{
    if exists|i: int| first_named(before, other, i) {
        let i = choose|i: int| first_named(before, other, i);
        assert(first_named(after, other, i)) by {
            assert(after[i] == before[i]);
            assert forall|j: int| 0 <= j < i implies (#[trigger] after[j]).0@ != other by {
                assert(after[j] == before[j]);
            }
        }
        lemma_first_named_settings(before, other, i);
        lemma_first_named_settings(after, other, i);
    } else {
        if exists|i: int| first_named(after, other, i) {
            let i = choose|i: int| first_named(after, other, i);
            assert(i < before.len());
            assert(first_named(before, other, i)) by {
                assert(after[i] == before[i]);
                assert forall|j: int| 0 <= j < i implies (#[trigger] before[j]).0@ != other by {
                    assert(after[j] == before[j]);
                    assert(after[j].0@ != other);
                }
            }
        }
    }
}

} // verus!
