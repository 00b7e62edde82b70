//! The application's configuration record.
use vstd::prelude::*;

use crate::duration::{deserialize_duration, error_prefix, parse_result, DurationDef};

verus! {

/// The endpoint of the node that the application talks to.
#[derive(Debug, PartialEq, Eq)]
pub struct Node {
    pub protocol: String,
    pub host: String,
    pub user: String,
    pub password: String,
}

/// The configuration of the application, read once at start-up.
#[derive(Debug, PartialEq, Eq)]
pub struct AppConf {
    pub name: String,
    pub request_timeout: DurationDef,
    pub slow_threshold: DurationDef,
    pub max_threads: u16,
    pub node: Node,
}

/// A field of a configuration document whose value could not be read.
#[derive(Debug, PartialEq, Eq)]
pub struct ConfigDeserializeError {
    /// The key of the field.
    pub field: String,
    /// Why its value was refused.
    pub message: String,
}

/// The message given for a duration field whose literal `s` does not parse.
pub open spec fn duration_field_message(s: Seq<char>) -> Seq<char> {
    error_prefix() + error_prefix() + parse_result(s)->Err_0
}

impl AppConf {
    /// Assembles the record from the values of a configuration document, the
    /// two durations still as literals. They are read in the order of the
    /// record's fields; the first that does not parse is reported.
    pub fn from_fields(
        name: String,
        request_timeout: &str,
        slow_threshold: &str,
        max_threads: u16,
        node: Node,
    ) -> (r: Result<AppConf, ConfigDeserializeError>)
        ensures
            r is Ok <==> (parse_result(request_timeout@) is Ok && parse_result(
                slow_threshold@,
            ) is Ok),
            r is Ok ==> {
                let c = r->Ok_0;
                &&& c.name == name
                &&& c.request_timeout.millis == parse_result(request_timeout@)->Ok_0
                &&& c.slow_threshold.millis == parse_result(slow_threshold@)->Ok_0
                &&& c.max_threads == max_threads
                &&& c.node == node
            },
            parse_result(request_timeout@) is Err ==> r is Err && r->Err_0.field@
                == "request_timeout"@ && r->Err_0.message@ == duration_field_message(
                request_timeout@,
            ),
            parse_result(request_timeout@) is Ok && parse_result(slow_threshold@) is Err ==> r is Err
                && r->Err_0.field@ == "slow_threshold"@ && r->Err_0.message@
                == duration_field_message(slow_threshold@),
    {
        let request_timeout = match deserialize_duration(request_timeout) {
            Ok(d) => d,
            Err(message) => {
                return Err(
                    ConfigDeserializeError {
                        field: String::from_str("request_timeout"),
                        message,
                    },
                );
            },
        };
        let slow_threshold = match deserialize_duration(slow_threshold) {
            Ok(d) => d,
            Err(message) => {
                return Err(
                    ConfigDeserializeError { field: String::from_str("slow_threshold"), message },
                );
            },
        };
        Ok(AppConf { name, request_timeout, slow_threshold, max_threads, node })
    }
}

} // verus!
