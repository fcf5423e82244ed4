use vstd::prelude::*;

use crate::config::{represents, schema_ok, CratisConfig};
use crate::error::ConfigError;
use crate::yaml::{parse_document, raw_doc_of, Yaml};

verus! {

/// A write-once holder for the process's configuration.
///
/// The holder starts empty, accepts exactly one configuration, and hands
/// out read-only references to it from then on. It is the only mutation
/// point of the library, and it mutates at most once.
pub struct ConfigHolder {
    value: Option<CratisConfig>,
}

impl View for ConfigHolder {
    type V = Option<CratisConfig>;

    closed spec fn view(&self) -> Option<CratisConfig> {
        self.value
    }
}

/// The holder and the result after an attempt to store `c` into `h`: an
/// empty holder accepts the value for good; a filled one is left unchanged
/// and the attempt is rejected.
pub open spec fn store_outcome(h: Option<CratisConfig>, c: CratisConfig) -> (
    Option<CratisConfig>,
    Result<(), ConfigError>,
) {
    match h {
        Option::None => (Some(c), Ok(())),
        Option::Some(p) => (Some(p), Err(ConfigError::AlreadyInitialized)),
    }
}

/// The result of reading the holder `h`: its value once one is stored,
/// and a failure before that.
pub open spec fn read_outcome(h: Option<CratisConfig>) -> Result<CratisConfig, ConfigError> {
    match h {
        Option::Some(c) => Ok(c),
        Option::None => Err(ConfigError::NotInitialized),
    }
}

impl ConfigHolder {
    /// An empty holder: no configuration stored yet.
    pub fn new() -> (h: ConfigHolder)
        ensures
            h@ is None,
    {
        ConfigHolder { value: None }
    }

    /// Store a configuration, at most once per holder.
    pub fn set(&mut self, c: CratisConfig) -> (r: Result<(), ConfigError>)
        ensures
            (final(self)@, r) == store_outcome(old(self)@, c),
    {
        if self.value.is_some() {
            Err(ConfigError::AlreadyInitialized)
        } else {
            self.value = Some(c);
            Ok(())
        }
    }

    /// Read the stored configuration.
    pub fn get(&self) -> (r: Result<&CratisConfig, ConfigError>)
        ensures
            match read_outcome(self@) {
                Ok(c) => r matches Ok(p) && *p == c,
                Err(e) => r matches Err(a) && a == e,
            },
    {
        match &self.value {
            Some(c) => Ok(c),
            None => Err(ConfigError::NotInitialized),
        }
    }
}

/// Validate an already-parsed document against the schema and store the
/// configuration it describes into the holder.
///
/// The document is checked first, as a whole: a document that does not
/// match the schema changes nothing, whatever the holder's state; a
/// matching one is stored if and only if the holder is still empty.
pub fn load_document(holder: &mut ConfigHolder, y: &Yaml) -> (r: Result<(), ConfigError>)
    ensures
        r is Err ==> final(holder)@ == old(holder)@,
        !schema_ok(*y) ==> r == Err::<(), ConfigError>(ConfigError::Parse),
        schema_ok(*y) && old(holder)@ is Some ==> r == Err::<(), ConfigError>(
            ConfigError::AlreadyInitialized,
        ),
        schema_ok(*y) && old(holder)@ is None ==> r == Ok::<(), ConfigError>(())
            && (final(holder)@ matches Some(c) && represents(c, *y)),
{
    match CratisConfig::from_yaml(y) {
        Ok(c) => holder.set(c),
        Err(e) => Err(e),
    }
}

/// Load the configuration from YAML text, exactly once per holder.
///
/// The text is parsed and validated as a whole before the holder is
/// touched: every failure leaves the holder as it was, and on an empty
/// holder a text denoting a schema-valid document must load, storing a
/// configuration whose fields equal that document's values exactly.
pub fn load_config(holder: &mut ConfigHolder, text: &str) -> (r: Result<(), ConfigError>)
    ensures
        r is Err ==> final(holder)@ == old(holder)@,
        raw_doc_of(text@) is None ==> r == Err::<(), ConfigError>(ConfigError::Parse),
        raw_doc_of(text@) matches Some(d) ==> {
            &&& !schema_ok(d) ==> r == Err::<(), ConfigError>(ConfigError::Parse)
            &&& schema_ok(d) && old(holder)@ is Some ==> r == Err::<(), ConfigError>(
                ConfigError::AlreadyInitialized,
            )
            &&& schema_ok(d) && old(holder)@ is None ==> r == Ok::<(), ConfigError>(())
                && (final(holder)@ matches Some(c) && represents(c, d))
        },
{
    let y = match parse_document(text) {
        Ok(y) => y,
        Err(e) => {
            return Err(e);
        }
    };
    load_document(holder, &y)
}

/// Read the configuration held by `holder`.
pub fn get_config(holder: &ConfigHolder) -> (r: Result<&CratisConfig, ConfigError>)
    ensures
        match read_outcome(holder@) {
            Ok(c) => r matches Ok(p) && *p == c,
            Err(e) => r matches Err(a) && a == e,
        },
{
    holder.get()
}

/// Round trip: storing the configuration read from a schema-valid document
/// into an empty holder succeeds, and a later read returns a configuration
/// whose fields equal the document's values exactly.
pub proof fn lemma_load_then_get_round_trip(c: CratisConfig, y: Yaml)
    requires
        schema_ok(y),
        represents(c, y),
    ensures
        store_outcome(Option::None, c).1 == Ok::<(), ConfigError>(()),
        read_outcome(store_outcome(Option::None, c).0) == Ok::<CratisConfig, ConfigError>(c),
{
}

/// A second store is rejected: once a configuration is stored, any further
/// store attempt, even of an identical value, fails and leaves the stored
/// value untouched.
pub proof fn lemma_second_load_rejected(c1: CratisConfig, c2: CratisConfig)
    ensures
        store_outcome(Option::None, c1).1 == Ok::<(), ConfigError>(()),
        store_outcome(store_outcome(Option::None, c1).0, c2).1 == Err::<(), ConfigError>(
            ConfigError::AlreadyInitialized,
        ),
        store_outcome(store_outcome(Option::None, c1).0, c2).0 == store_outcome(
            Option::None,
            c1,
        ).0,
{
}

/// Reading an empty holder fails: before any load, every read reports
/// that the configuration is not initialized.
pub proof fn lemma_get_before_load()
    ensures
        read_outcome(Option::None) == Err::<CratisConfig, ConfigError>(ConfigError::NotInitialized),
{
}

} // verus!
