//! A data processor that labels its input, and its configuration.

use vstd::prelude::*;
use vstd::string::StringExecFns;
use crate::errors::AppError;
use crate::variant::Outcome;

verus! {

/// Settings for a [`DataProcessor`].
pub struct ProcessorConfig {
    pub max_size: usize,
    pub timeout: u64,
}

impl ProcessorConfig {
    /// A configuration with the given limits.
    pub fn new(max_size: usize, timeout: u64) -> (r: ProcessorConfig)
        ensures
            r.max_size == max_size,
            r.timeout == timeout,
    {
        ProcessorConfig { max_size, timeout }
    }

    /// The stock configuration: a maximum size of 1024 and a timeout of 30.
    pub fn default() -> (r: ProcessorConfig)
        ensures
            r.max_size == 1024,
            r.timeout == 30,
    {
        ProcessorConfig { max_size: 1024, timeout: 30 }
    }
}

/// A named processor that labels the data handed to it.
pub struct DataProcessor<'a> {
    name: &'a str,
    config: &'a ProcessorConfig,
}

impl<'a> DataProcessor<'a> {
    /// The processor's name.
    pub closed spec fn spec_name(&self) -> Seq<char> {
        self.name@
    }

    /// The configuration the processor was given.
    pub closed spec fn spec_config(&self) -> ProcessorConfig {
        *self.config
    }

    /// A processor with the given name and configuration.
    pub fn new(name: &'a str, config: &'a ProcessorConfig) -> (r: DataProcessor<'a>)
        ensures
            r.spec_name() == name@,
            r.spec_config() == *config,
    {
        DataProcessor { name, config }
    }

    /// Labels `data` with the processor's name, as `"name: data"`. Empty
    /// data is rejected with an `InvalidInput` failure; any other input
    /// succeeds.
    pub fn process(&self, data: &str) -> (r: Outcome<String, AppError>)
        ensures
            data@.len() == 0 ==> (r matches Outcome::Failure(AppError::InvalidInput(m))
                && m@ == "Empty data"@),
            data@.len() > 0 ==> (r matches Outcome::Success(s)
                && s@ == self.spec_name() + ": "@ + data@),
    {
        if data.is_empty() {
            return Outcome::Failure(AppError::InvalidInput(String::from_str("Empty data")));
        }
        Outcome::Success(String::from_str(self.name).concat(": ").concat(data))
    }

    /// The processor's name.
    pub fn get_name(&self) -> (r: &str)
        ensures
            r@ == self.spec_name(),
    {
        self.name
    }
}

} // verus!
