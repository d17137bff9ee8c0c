//! Building the request body a downstream client sends to a provisioned
//! environment to create an index there.
use vstd::prelude::*;
use vstd::string::StringExecFns;

use crate::model::IndexRequestBody;

verus! {

/// Generate the query for creating an index, with the request's values
/// inlined. The downstream service takes a single region, so only the first
/// region of the request is carried.
pub fn get_graphql_create_index(index: &IndexRequestBody) -> (r: String)
    requires
        index.regions@.len() >= 1,
    ensures
        r@ == r#"{ "query": "#@
            + r#" "mutation createIndex($index: IndexRequestBody!) { createIndex(index: $index) { index { indexId } } }" "#@
            + r#", "variables": { "index": "#@ + r#"{ "indexType": ""#@ + index.index_type@
            + r#"", "dataSource": ""#@ + index.data_source@ + r#"", "region": ""#@
            + index.regions@[0]@ + r#"" }"#@ + r#" } }"#@,
{
    let mut s = String::from_str(r#"{ "query": "#);
    s.append(
        r#" "mutation createIndex($index: IndexRequestBody!) { createIndex(index: $index) { index { indexId } } }" "#,
    );
    s.append(r#", "variables": { "index": "#);
    s.append(r#"{ "indexType": ""#);
    s.append(index.index_type.as_str());
    s.append(r#"", "dataSource": ""#);
    s.append(index.data_source.as_str());
    s.append(r#"", "region": ""#);
    s.append(index.regions[0].as_str());
    s.append(r#"" }"#);
    s.append(r#" } }"#);
    proof {
        assert(s@ =~= r#"{ "query": "#@
            + r#" "mutation createIndex($index: IndexRequestBody!) { createIndex(index: $index) { index { indexId } } }" "#@
            + r#", "variables": { "index": "#@ + r#"{ "indexType": ""#@ + index.index_type@
            + r#"", "dataSource": ""#@ + index.data_source@ + r#"", "region": ""#@
            + index.regions@[0]@ + r#"" }"#@ + r#" } }"#@);
    }
    s
}

} // verus!
