//! The store as the engine sees it: how to reach it, the rows it returns,
//! and the rules that a write follows.

pub mod attestation;
pub mod committee;
pub mod epoch;
pub mod proposer;
pub mod validator;

use crate::common::util::{decimal, decimal_string};
use vstd::prelude::*;
use vstd::string::*;

verus! {

/// Where the store is and how to log in.
#[derive(Debug)]
pub struct DbConfig {
    pub host: String,
    pub port: u16,
    pub username: String,
    pub password: String,
    pub database: String,
}

impl DbConfig {
    /// The connection URL: scheme, user and password, host and port, and
    /// the database as the path.
    pub open spec fn url(self) -> Seq<char> {
        "postgres://"@ + self.username@ + ":"@ + self.password@ + "@"@ + self.host@ + ":"@ + decimal(
            self.port as nat,
        ) + "/"@ + self.database@
    }

    /// Formats the connection URL of the store.
    pub fn connection_string(&self) -> (url: String)
        ensures
            url@ == self.url(),
    {
        let mut url = String::from_str("postgres://");
        url.append(self.username.as_str());
        url.append(":");
        url.append(self.password.as_str());
        url.append("@");
        url.append(self.host.as_str());
        url.append(":");
        let port = decimal_string(self.port as u64);
        url.append(port.as_str());
        url.append("/");
        url.append(self.database.as_str());
        url
    }
}

/// The number of parameters that one statement can carry.
pub const MAX_PARAMETERS: usize = 65535;

/// The placeholders of row `row` of a batch insert with `columns` columns
/// per row, from column `from` on: numbered on from the rows before, with a
/// comma between two.
pub open spec fn placeholders(row: nat, columns: nat, from: nat) -> Seq<char>
    decreases columns - from,
{
    if from >= columns {
        Seq::empty()
    } else if from + 1 == columns {
        "$"@ + decimal(row * columns + from + 1)
    } else {
        "$"@ + decimal(row * columns + from + 1) + ", "@ + placeholders(row, columns, from + 1)
    }
}

/// The value lists of the first `rows` rows of a batch insert: each row in
/// parentheses, with a comma between two.
pub open spec fn value_lists(rows: nat, columns: nat) -> Seq<char>
    decreases rows,
{
    if rows == 0 {
        Seq::empty()
    } else if rows == 1 {
        "("@ + placeholders(0, columns, 0) + ")"@
    } else {
        value_lists((rows - 1) as nat, columns) + ", "@ + "("@ + placeholders((rows - 1) as nat, columns, 0)
            + ")"@
    }
}

/// Whether a batch insert of `rows` rows of `columns` columns can be made
/// in one statement: it has a row, and no more parameters than a statement
/// can carry.
pub open spec fn fits_statement(rows: nat, columns: nat) -> bool {
    0 < rows && 0 < columns && rows * columns <= MAX_PARAMETERS
}

fn row_placeholders(row: usize, columns: usize) -> (text: String)
    requires
        0 < columns,
        (row + 1) * columns <= MAX_PARAMETERS,
    ensures
        text@ == placeholders(row as nat, columns as nat, 0),
{
    assert(row * columns + columns == (row + 1) * columns) by (nonlinear_arith);
    let base = row * columns;
    let mut text = String::new();
    let mut from: usize = columns;
    while from > 0
        invariant
            0 <= from <= columns,
            base == row * columns,
            base + columns <= MAX_PARAMETERS,
            text@ == placeholders(row as nat, columns as nat, from as nat),
        decreases from,
    {
        from = from - 1;
        let number = decimal_string((base + from + 1) as u64);
        let mut head = String::from_str("$");
        head.append(number.as_str());
        if from + 1 < columns {
            head.append(", ");
        }
        head.append(text.as_str());
        text = head;
    }
    text
}

/// Writes the value lists of a batch insert of `rows` rows of `columns`
/// columns; `None` where the batch does not fit one statement.
pub fn batch_values(rows: usize, columns: usize) -> (values: Option<String>)
    ensures
        match values {
            Some(text) => fits_statement(rows as nat, columns as nat) && text@ == value_lists(
                rows as nat,
                columns as nat,
            ),
            None => !fits_statement(rows as nat, columns as nat),
        },
{
    if rows == 0 || columns == 0 || columns > MAX_PARAMETERS || rows > MAX_PARAMETERS / columns {
        assert(!fits_statement(rows as nat, columns as nat)) by (nonlinear_arith)
            requires
                rows == 0 || columns == 0 || columns > MAX_PARAMETERS || rows > MAX_PARAMETERS / columns,
        ;
        return None;
    }
    assert(rows * columns <= MAX_PARAMETERS) by (nonlinear_arith)
        requires
            0 < columns,
            rows <= MAX_PARAMETERS / columns,
    ;
    let mut text = String::new();
    let mut row: usize = 0;
    while row < rows
        invariant
            0 <= row <= rows,
            0 < columns,
            rows * columns <= MAX_PARAMETERS,
            text@ == value_lists(row as nat, columns as nat),
        decreases rows - row,
    {
        assert((row + 1) * columns <= rows * columns) by (nonlinear_arith)
            requires
                row < rows,
                0 < columns,
        ;
        if row > 0 {
            text.append(", ");
        }
        text.append("(");
        let inner = row_placeholders(row, columns);
        text.append(inner.as_str());
        text.append(")");
        proof {
            if row == 0 {
                assert(Seq::<char>::empty() + "("@ + inner@ + ")"@ =~= "("@ + inner@ + ")"@);
            }
        }
        row = row + 1;
    }
    Some(text)
}

} // verus!
