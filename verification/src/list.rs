//! Cursor-based pagination over GraphQL connections: the query
//! fragments that request one page, and the cursor with which to ask
//! for the next one.

use vstd::prelude::*;
use crate::digits::{decimal_digits, decimal_string};

verus! {

/// The cursor/flags record of a connection page. Every field is
/// optional: servers are free to omit any of them.
#[derive(Debug)]
#[allow(non_snake_case)]
pub struct PageInfo {
    pub startCursor: Option<String>,
    pub endCursor: Option<String>,
    pub hasPreviousPage: Option<bool>,
    pub hasNextPage: Option<bool>,
}

/// One fetched slice of a GraphQL connection: the page's nodes in
/// server order, the count of items across all pages when the server
/// gave one, and the cursor/flags record when the server gave one.
/// An absent `pageInfo` means "no more pages, unknown state", never
/// "has a next page".
#[derive(Debug)]
#[allow(non_snake_case)]
pub struct List<Item> {
    pub totalCount: Option<usize>,
    pub nodes: Vec<Item>,
    pub pageInfo: Option<PageInfo>,
}

/// The character-sequence view of an optional owned string.
pub open spec fn opt_str_view(o: Option<String>) -> Option<Seq<char>> {
    match o {
        Some(s) => Some(s@),
        None => None,
    }
}

/// The argument list for one page request: `(first:<n> <clauses>)`
/// for the first page, `(first:<n> after:"<cursor>" <clauses>)` for a
/// later one. The clauses are spliced in verbatim.
pub open spec fn page_selector_text(
    after: Option<Seq<char>>,
    first: nat,
    other_clauses: Seq<char>,
) -> Seq<char> {
    match after {
        Some(cursor) => "(first:"@ + decimal_digits(first) + " after:\""@ + cursor + "\" "@
            + other_clauses + ")"@,
        None => "(first:"@ + decimal_digits(first) + " "@ + other_clauses + ")"@,
    }
}

/// The brace-delimited body of one page request: `totalCount`, the
/// nodes with the caller's item selection spliced in verbatim, and the
/// full `pageInfo` block.
pub open spec fn page_body_text(item_query_part: Seq<char>) -> Seq<char> {
    "{\n            totalCount\n            nodes "@ + item_query_part
        + "\n            pageInfo {\n                startCursor\n                endCursor\n                hasPreviousPage\n                hasNextPage\n            }\n        }"@
}

/// The cursor with which to request the page after this one: the
/// page's `endCursor`, exactly when `pageInfo` is present and
/// `hasNextPage` is exactly `true`; absent in every other case.
pub open spec fn next_cursor_of(pageInfo: Option<PageInfo>) -> Option<String> {
    match pageInfo {
        Some(info) => {
            if info.hasNextPage == Some(true) {
                info.endCursor
            } else {
                None
            }
        },
        None => None,
    }
}

impl<Item> List<Item> {
    /// Builds the argument list for one page request. `other_clauses`
    /// (filters, ordering) is caller-supplied raw text, inserted
    /// verbatim: the library assembles text, it does not validate
    /// GraphQL.
    pub fn query_page_selector(
        after: &Option<String>,
        first: usize,  // page max size
        other_clauses: &str,  // filters & ordering clauses
    ) -> (r: String)
        ensures
            r@ == page_selector_text(opt_str_view(*after), first as nat, other_clauses@),
    {
        let mut out = String::new();
        out.append("(first:");
        let digits = decimal_string(first);
        out.append(digits.as_str());
        match after {
            Some(cursor) => {
                out.append(" after:\"");
                out.append(cursor.as_str());
                out.append("\" ");
            },
            None => {
                out.append(" ");
            },
        }
        out.append(other_clauses);
        out.append(")");
        proof {
            assert(out@ =~= page_selector_text(
                opt_str_view(*after),
                first as nat,
                other_clauses@,
            ));
        }
        out
    }

    /// Builds the body of one page request around the caller's item
    /// selection, inserted verbatim.
    pub fn query_page_body(item_query_part: &str) -> (r: String)
        ensures
            r@ == page_body_text(item_query_part@),
    {
        let mut out = String::new();
        out.append("{\n            totalCount\n            nodes ");
        out.append(item_query_part);
        out.append(
            "\n            pageInfo {\n                startCursor\n                endCursor\n                hasPreviousPage\n                hasNextPage\n            }\n        }",
        );
        proof {
            assert(out@ =~= page_body_text(item_query_part@));
        }
        out
    }

    /// The cursor for the page after this one, or `None` when the walk
    /// is over: the `endCursor` exactly when `pageInfo` is present and
    /// `hasNextPage` is exactly `true`. A server that keeps answering
    /// `hasNextPage: true` keeps the walk going: no page cap and no
    /// cursor-repeat detection is imposed here.
    pub fn next_page_cursor(self) -> (r: Option<String>)
        ensures
            r == next_cursor_of(self.pageInfo),
    {
        if let Some(page_info) = self.pageInfo {
            if let Some(has_next) = page_info.hasNextPage {
                if has_next {
                    return page_info.endCursor;
                }
            }
        }
        None
    }
}

/// The query fragment for the count of a collection:
/// `<name>(<filter>){ totalCount }`, both parts spliced in verbatim.
pub open spec fn count_query_text(collection_name: Seq<char>, filter: Seq<char>) -> Seq<char> {
    collection_name + "("@ + filter + "){ totalCount }"@
}

/// A structure matching `{ totalCount }`, convenient when only the
/// number of items in a collection is wanted, not the items.
#[derive(Debug, Clone, Copy)]
#[allow(non_snake_case)]
pub struct Count {
    pub totalCount: usize,
}

impl Count {
    /// Builds the query part for the count of something. Can be used
    /// for a whole query or just a property.
    pub fn query(collection_name: &str, filter: &str) -> (r: String)
        ensures
            r@ == count_query_text(collection_name@, filter@),
    {
        let mut out = String::new();
        out.append(collection_name);
        out.append("(");
        out.append(filter);
        out.append("){ totalCount }");
        proof {
            assert(out@ =~= count_query_text(collection_name@, filter@));
        }
        out
    }

    /// The count as a plain unsigned value.
    pub fn into_usize(self) -> (r: usize)
        ensures
            r == self.totalCount,
    {
        self.totalCount
    }
}

} // verus!
