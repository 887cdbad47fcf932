//! The notification value model: the kind of row-level write, the record
//! describing one write, and the decoding of the raw operation code that the
//! native engine hands to the hook callback.

use vstd::prelude::*;

verus! {

/// The operation code SQLite passes to an update hook for a row deletion.
pub const DELETE_CODE: i32 = 9;

/// The operation code SQLite passes to an update hook for a row insertion.
pub const INSERT_CODE: i32 = 18;

/// The operation code SQLite passes to an update hook for a row update.
pub const UPDATE_CODE: i32 = 23;

/// The kind of row-level write that triggered a notification.
#[derive(Debug, Clone, Copy, PartialEq, Eq, Structural)]
pub enum UpdateOperation {
    Delete,
    Insert,
    Update,
}

/// One row-level change: the operation, the database and table it touched,
/// and the identifier of the affected row. For an update, `row_id` is the
/// row's identifier after the update took place (the engine's own contract).
#[derive(Debug)]
pub struct UpdateNotification {
    pub operation: UpdateOperation,
    pub database: String,
    pub table: String,
    pub row_id: i64,
}

/// The mathematical image of an [`UpdateNotification`]: the same record with
/// its text fields abstracted to character sequences.
#[verifier::ext_equal]
pub ghost struct NotificationView {
    pub operation: UpdateOperation,
    pub database: Seq<char>,
    pub table: Seq<char>,
    pub row_id: i64,
}

impl View for UpdateNotification {
    type V = NotificationView;

    open spec fn view(&self) -> NotificationView {
        NotificationView {
            operation: self.operation,
            database: self.database@,
            table: self.table@,
            row_id: self.row_id,
        }
    }
}

/// What a raw operation code means: exactly the three known codes decode,
/// every other code is a non-event.
pub open spec fn spec_decode_operation(op_code: i32) -> Option<UpdateOperation> {
    if op_code == DELETE_CODE {
        Some(UpdateOperation::Delete)
    } else if op_code == INSERT_CODE {
        Some(UpdateOperation::Insert)
    } else if op_code == UPDATE_CODE {
        Some(UpdateOperation::Update)
    } else {
        None
    }
}

/// Decodes the operation code the engine passed to the hook callback.
/// Codes outside the three known values yield `None` and must be ignored
/// by the caller.
pub fn decode_operation(op_code: i32) -> (r: Option<UpdateOperation>)
    ensures
        r == spec_decode_operation(op_code),
{
    if op_code == DELETE_CODE {
        Some(UpdateOperation::Delete)
    } else if op_code == INSERT_CODE {
        Some(UpdateOperation::Insert)
    } else if op_code == UPDATE_CODE {
        Some(UpdateOperation::Update)
    } else {
        None
    }
}

/// Builds the notification for raw callback arguments: `Some` exactly when
/// the operation code is one of the three known codes, and then a record
/// carrying the decoded operation and the arguments unchanged. In
/// particular the delivered `row_id` is exactly the identifier the engine
/// reported for the write.
pub fn make_notification(op_code: i32, database: String, table: String, row_id: i64) -> (r: Option<
    UpdateNotification,
>)
    ensures
        r is Some <==> spec_decode_operation(op_code) is Some,
        r matches Some(n) ==> n@ == (NotificationView {
            operation: spec_decode_operation(op_code)->Some_0,
            database: database@,
            table: table@,
            row_id,
        }),
{
    match decode_operation(op_code) {
        Some(operation) => Some(
            UpdateNotification { operation, database, table, row_id },
        ),
        None => None,
    }
}

} // verus!
