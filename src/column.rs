//! What the schema says of one column: its storage type, its declared
//! length limit and, when the table was profiled, its observed value width.

use vstd::prelude::*;

verus! {

/// Storage type of a column, as the schema reports it.
#[derive(Debug, Clone, Copy, PartialEq, Eq, Structural)]
pub enum SqlType {
    Bool,
    Tinyint,
    Smallint,
    Int,
    Bigint,

    Real,
    Float,
    Double,
    Numeric,

    Tinyblob,
    Mediumblob,
    Blob,
    Longblob,
    Varbinary,

    Char,
    Varchar,
    Tinytext,
    Mediumtext,
    Text,
    Json,
    TsVector,

    Uuid,
    Date,
    Timestamp,
    TimestampTz,

    Time,
    TimeTz,
    Interval,

    IpAddress,

    Point,

    /// an enumeration over a fixed list of values
    Enum,
    /// an array of values of one type
    Array,
}

impl SqlType {
    /// Integer, floating-point and fixed-point types.
    pub open spec fn is_numeric(self) -> bool {
        match self {
            SqlType::Tinyint
            | SqlType::Smallint
            | SqlType::Int
            | SqlType::Bigint
            | SqlType::Real
            | SqlType::Float
            | SqlType::Double
            | SqlType::Numeric => true,
            _ => false,
        }
    }

    /// Identifier, date, date-time and time types.
    pub open spec fn is_temporal_or_identifier(self) -> bool {
        match self {
            SqlType::Uuid
            | SqlType::Date
            | SqlType::Timestamp
            | SqlType::TimestampTz
            | SqlType::Time
            | SqlType::TimeTz => true,
            _ => false,
        }
    }
}

/// Statistical profile of the values stored in a column.
#[derive(Debug, Clone, Copy, PartialEq, Eq, Structural)]
pub struct ColumnStat {
    /// average width, in characters, of the stored values
    pub avg_width: i32,
}

/// The facts about one column that the control is derived from.
#[derive(Debug, Clone, Copy, PartialEq, Eq, Structural)]
pub struct Column {
    pub sql_type: SqlType,
    /// declared length limit, if the column has one
    pub limit: Option<i32>,
    /// statistical profile, if the column was profiled
    pub stat: Option<ColumnStat>,
}

impl Column {
    pub fn new(sql_type: SqlType, limit: Option<i32>, stat: Option<ColumnStat>) -> (r: Column)
        ensures
            r.sql_type == sql_type,
            r.limit == limit,
            r.stat == stat,
    {
        Column { sql_type, limit, stat }
    }
}

} // verus!
