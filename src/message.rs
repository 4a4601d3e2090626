use vstd::prelude::*;
use crate::sqlite::SqlValue;
use crate::text::{
    all_digits, lemma_padded_value, padded, pow10, push_padded, read_number, value_of,
};

verus! {

/// A point in time, in UTC, as calendar fields.
#[derive(Clone, Copy, Debug, PartialEq, Eq, Structural)]
pub struct Timestamp {
    pub year: u32,
    pub month: u32,
    pub day: u32,
    pub hour: u32,
    pub minute: u32,
    pub second: u32,
}

pub open spec fn is_leap_year(y: nat) -> bool {
    y % 4 == 0 && (y % 100 != 0 || y % 400 == 0)
}

pub open spec fn days_in_month(y: nat, m: nat) -> nat {
    if m == 2 {
        if is_leap_year(y) { 29 } else { 28 }
    } else if m == 4 || m == 6 || m == 9 || m == 11 {
        30
    } else {
        31
    }
}

impl Timestamp {
    /// A real calendar date with a four-digit year and a time of day.
    pub open spec fn wf(self) -> bool {
        &&& self.year <= 9999
        &&& 1 <= self.month <= 12
        &&& 1 <= self.day <= days_in_month(self.year as nat, self.month as nat)
        &&& self.hour < 24
        &&& self.minute < 60
        &&& self.second < 60
    }

    /// `YYYY-MM-DDTHH:MM:SSZ`: fixed width, so text order is time order.
    pub open spec fn text(self) -> Seq<char> {
        padded(self.year as nat, 4) + seq!['-'] + padded(self.month as nat, 2) + seq!['-']
            + padded(self.day as nat, 2) + seq!['T'] + padded(self.hour as nat, 2) + seq![':']
            + padded(self.minute as nat, 2) + seq![':'] + padded(self.second as nat, 2)
            + seq!['Z']
    }

    /// The calendar fields, or `None` where they name no valid instant.
    pub fn new(year: u32, month: u32, day: u32, hour: u32, minute: u32, second: u32) -> (r: Option<
        Timestamp,
    >)
        ensures
            r == (if (Timestamp { year, month, day, hour, minute, second }).wf() {
                Some(Timestamp { year, month, day, hour, minute, second })
            } else {
                None
            }),
    {
        let t = Timestamp { year, month, day, hour, minute, second };
        if year <= 9999 && 1 <= month && month <= 12 && 1 <= day && day <= month_length(year, month)
            && hour < 24 && minute < 60 && second < 60 {
            Some(t)
        } else {
            None
        }
    }

    /// Whether the fields name a valid instant.
    pub fn is_valid(&self) -> (r: bool)
        ensures
            r == self.wf(),
    {
        self.year <= 9999 && 1 <= self.month && self.month <= 12 && 1 <= self.day && self.day
            <= month_length(self.year, self.month) && self.hour < 24 && self.minute < 60
            && self.second < 60
    }

    /// The canonical text of this instant.
    pub fn to_text(&self) -> (r: String)
        ensures
            r@ == self.text(),
    {
        proof {
            reveal_strlit("-");
            reveal_strlit("T");
            reveal_strlit(":");
            reveal_strlit("Z");
        }
        let mut s = String::new();
        push_padded(&mut s, self.year, 4);
        s.append("-");
        push_padded(&mut s, self.month, 2);
        s.append("-");
        push_padded(&mut s, self.day, 2);
        s.append("T");
        push_padded(&mut s, self.hour, 2);
        s.append(":");
        push_padded(&mut s, self.minute, 2);
        s.append(":");
        push_padded(&mut s, self.second, 2);
        s.append("Z");
        s
    }
}

/// The number of days in month `m` of year `y`.
pub fn month_length(y: u32, m: u32) -> (r: u32)
    ensures
        r == days_in_month(y as nat, m as nat),
{
    if m == 2 {
        if y % 4 == 0 && (y % 100 != 0 || y % 400 == 0) {
            29
        } else {
            28
        }
    } else if m == 4 || m == 6 || m == 9 || m == 11 {
        30
    } else {
        31
    }
}


/// The instant that a canonical timestamp text names, or `None` where the
/// text is not of that form or names no valid instant.
pub open spec fn timestamp_of_text(s: Seq<char>) -> Option<Timestamp> {
    if s.len() == 20 && s[4] == '-' && s[7] == '-' && s[10] == 'T' && s[13] == ':' && s[16] == ':'
        && s[19] == 'Z' && all_digits(s.subrange(0, 4)) && all_digits(s.subrange(5, 7))
        && all_digits(s.subrange(8, 10)) && all_digits(s.subrange(11, 13)) && all_digits(
        s.subrange(14, 16),
    ) && all_digits(s.subrange(17, 19)) {
        let t = Timestamp {
            year: value_of(s.subrange(0, 4)) as u32,
            month: value_of(s.subrange(5, 7)) as u32,
            day: value_of(s.subrange(8, 10)) as u32,
            hour: value_of(s.subrange(11, 13)) as u32,
            minute: value_of(s.subrange(14, 16)) as u32,
            second: value_of(s.subrange(17, 19)) as u32,
        };
        if t.wf() {
            Some(t)
        } else {
            None
        }
    } else {
        None
    }
}

/// The text of a valid instant reads back as that instant.
pub proof fn lemma_timestamp_round_trip(t: Timestamp)
    requires
        t.wf(),
    ensures
        timestamp_of_text(t.text()) == Some(t),
{
    assert(pow10(2) == 100 && pow10(4) == 10000) by {
        reveal_with_fuel(pow10, 5);
    }
    lemma_padded_value(t.year as nat, 4);
    lemma_padded_value(t.month as nat, 2);
    lemma_padded_value(t.day as nat, 2);
    lemma_padded_value(t.hour as nat, 2);
    lemma_padded_value(t.minute as nat, 2);
    lemma_padded_value(t.second as nat, 2);
    let s = t.text();
    assert(s.len() == 20);
    assert(s.subrange(0, 4) =~= padded(t.year as nat, 4));
    assert(s.subrange(5, 7) =~= padded(t.month as nat, 2));
    assert(s.subrange(8, 10) =~= padded(t.day as nat, 2));
    assert(s.subrange(11, 13) =~= padded(t.hour as nat, 2));
    assert(s.subrange(14, 16) =~= padded(t.minute as nat, 2));
    assert(s.subrange(17, 19) =~= padded(t.second as nat, 2));
    assert(s[4] == '-' && s[7] == '-' && s[10] == 'T' && s[13] == ':' && s[16] == ':' && s[19]
        == 'Z');
}

impl Timestamp {
    /// Reads a canonical timestamp text back.
    pub fn parse(s: &str) -> (r: Option<Timestamp>)
        ensures
            r == timestamp_of_text(s@),
    {
        if s.unicode_len() != 20 {
            return None;
        }
        if !(s.get_char(4) == '-' && s.get_char(7) == '-' && s.get_char(10) == 'T' && s.get_char(13)
            == ':' && s.get_char(16) == ':' && s.get_char(19) == 'Z') {
            return None;
        }
        let year = match read_number(s, 0, 4) {
            Some(v) => v,
            None => {
                return None;
            },
        };
        let month = match read_number(s, 5, 2) {
            Some(v) => v,
            None => {
                return None;
            },
        };
        let day = match read_number(s, 8, 2) {
            Some(v) => v,
            None => {
                return None;
            },
        };
        let hour = match read_number(s, 11, 2) {
            Some(v) => v,
            None => {
                return None;
            },
        };
        let minute = match read_number(s, 14, 2) {
            Some(v) => v,
            None => {
                return None;
            },
        };
        let second = match read_number(s, 17, 2) {
            Some(v) => v,
            None => {
                return None;
            },
        };
        Timestamp::new(year, month, day, hour, minute, second)
    }
}

/// The kind of payload a message carries.
#[derive(Clone, Copy, Debug, PartialEq, Eq, Structural)]
pub enum MessageType {
    Text,
    Image,
    Video,
    Audio,
    Document,
    Sticker,
    Location,
    Contact,
    System,
}

impl MessageType {
    /// The stored name of each kind.
    pub open spec fn name_spec(self) -> Seq<char> {
        match self {
            MessageType::Text => "Text"@,
            MessageType::Image => "Image"@,
            MessageType::Video => "Video"@,
            MessageType::Audio => "Audio"@,
            MessageType::Document => "Document"@,
            MessageType::Sticker => "Sticker"@,
            MessageType::Location => "Location"@,
            MessageType::Contact => "Contact"@,
            MessageType::System => "System"@,
        }
    }

    pub fn name(&self) -> (r: &'static str)
        ensures
            r@ == self.name_spec(),
    {
        match self {
            MessageType::Text => "Text",
            MessageType::Image => "Image",
            MessageType::Video => "Video",
            MessageType::Audio => "Audio",
            MessageType::Document => "Document",
            MessageType::Sticker => "Sticker",
            MessageType::Location => "Location",
            MessageType::Contact => "Contact",
            MessageType::System => "System",
        }
    }
    /// Reads a stored kind name back.
    pub fn from_name(s: &String) -> (r: Option<MessageType>)
        ensures
            r == type_of_name(s@),
    {
        if same_text(s, "Text") {
            Some(MessageType::Text)
        } else if same_text(s, "Image") {
            Some(MessageType::Image)
        } else if same_text(s, "Video") {
            Some(MessageType::Video)
        } else if same_text(s, "Audio") {
            Some(MessageType::Audio)
        } else if same_text(s, "Document") {
            Some(MessageType::Document)
        } else if same_text(s, "Sticker") {
            Some(MessageType::Sticker)
        } else if same_text(s, "Location") {
            Some(MessageType::Location)
        } else if same_text(s, "Contact") {
            Some(MessageType::Contact)
        } else if same_text(s, "System") {
            Some(MessageType::System)
        } else {
            None
        }
    }
}

fn same_text(s: &String, lit: &str) -> (r: bool)
    ensures
        r == (s@ == lit@),
{
    *s == String::from_str(lit)
}

/// The kind that a stored name names, if any.
pub open spec fn type_of_name(s: Seq<char>) -> Option<MessageType> {
    if s == "Text"@ {
        Some(MessageType::Text)
    } else if s == "Image"@ {
        Some(MessageType::Image)
    } else if s == "Video"@ {
        Some(MessageType::Video)
    } else if s == "Audio"@ {
        Some(MessageType::Audio)
    } else if s == "Document"@ {
        Some(MessageType::Document)
    } else if s == "Sticker"@ {
        Some(MessageType::Sticker)
    } else if s == "Location"@ {
        Some(MessageType::Location)
    } else if s == "Contact"@ {
        Some(MessageType::Contact)
    } else if s == "System"@ {
        Some(MessageType::System)
    } else {
        None
    }
}

/// Each kind's name reads back as that kind.
pub proof fn lemma_type_name_round_trip(k: MessageType)
    ensures
        type_of_name(k.name_spec()) == Some(k),
{
    reveal_strlit("Text");
    reveal_strlit("Image");
    reveal_strlit("Video");
    reveal_strlit("Audio");
    reveal_strlit("Document");
    reveal_strlit("Sticker");
    reveal_strlit("Location");
    reveal_strlit("Contact");
    reveal_strlit("System");
    let names = seq![
        "Text"@,
        "Image"@,
        "Video"@,
        "Audio"@,
        "Document"@,
        "Sticker"@,
        "Location"@,
        "Contact"@,
        "System"@,
    ];
    assert forall|i: int, j: int| 0 <= i < j < 9 implies names[i] != names[j] by {
        assert(names[i].len() != names[j].len() || names[i][0] != names[j][0]);
    }
    assert(names[0] == "Text"@ && names[1] == "Image"@ && names[2] == "Video"@ && names[3] == "Audio"@);
    assert(names[4] == "Document"@ && names[5] == "Sticker"@ && names[6] == "Location"@);
    assert(names[7] == "Contact"@ && names[8] == "System"@);
}

/// A received chat message.
#[derive(Clone, Debug)]
pub struct Message {
    pub id: String,
    pub from_me: bool,
    pub timestamp: Timestamp,
    pub message_type: MessageType,
    pub chat_jid: String,
    pub text: Option<String>,
}

/// What a message holds, as values.
pub struct MessageModel {
    pub id: Seq<char>,
    pub from_me: bool,
    pub timestamp: Timestamp,
    pub message_type: MessageType,
    pub chat_jid: Seq<char>,
    pub text: Option<Seq<char>>,
}

impl View for Message {
    type V = MessageModel;

    open spec fn view(&self) -> MessageModel {
        MessageModel {
            id: self.id@,
            from_me: self.from_me,
            timestamp: self.timestamp,
            message_type: self.message_type,
            chat_jid: self.chat_jid@,
            text: text_view(self.text),
        }
    }
}

impl Message {
    /// A message that can be stored: it has an id and a valid time.
    pub open spec fn wf(&self) -> bool {
        self.id@.len() > 0 && self.timestamp.wf()
    }

    /// Whether the message can be stored.
    pub fn is_storable(&self) -> (r: bool)
        ensures
            r == self.wf(),
    {
        !self.id.as_str().is_empty() && self.timestamp.is_valid()
    }
}

/// The stored form of a message, as it is in the `messages` table.
pub struct RowModel {
    pub id: Seq<char>,
    pub from_me: int,
    pub timestamp: Seq<char>,
    pub message_type: Seq<char>,
    pub chat_jid: Seq<char>,
    pub text: Option<Seq<char>>,
}

pub open spec fn text_view(t: Option<String>) -> Option<Seq<char>> {
    match t {
        Some(s) => Some(s@),
        None => None,
    }
}

/// The row that stores `m`: its fields as text, its direction as 0 or 1,
/// and an absent text as NULL.
pub open spec fn row_of(m: Message) -> RowModel {
    RowModel {
        id: m.id@,
        from_me: if m.from_me { 1 } else { 0 },
        timestamp: m.timestamp.text(),
        message_type: m.message_type.name_spec(),
        chat_jid: m.chat_jid@,
        text: text_view(m.text),
    }
}

/// One row of the `messages` table, ready to be bound to the insert.
#[derive(Clone, Debug)]
pub struct MessageRow {
    pub id: String,
    pub from_me: i64,
    pub timestamp: String,
    pub message_type: String,
    pub chat_jid: String,
    pub text: Option<String>,
}

impl View for MessageRow {
    type V = RowModel;

    open spec fn view(&self) -> RowModel {
        RowModel {
            id: self.id@,
            from_me: self.from_me as int,
            timestamp: self.timestamp@,
            message_type: self.message_type@,
            chat_jid: self.chat_jid@,
            text: text_view(self.text),
        }
    }
}

impl MessageRow {
    /// The row that stores `m`.
    pub fn from_message(m: &Message) -> (r: MessageRow)
        ensures
            r@ == row_of(*m),
    {
        let text = match &m.text {
            Some(t) => Some(t.clone()),
            None => None,
        };
        MessageRow {
            id: m.id.clone(),
            from_me: if m.from_me { 1 } else { 0 },
            timestamp: m.timestamp.to_text(),
            message_type: String::from_str(m.message_type.name()),
            chat_jid: m.chat_jid.clone(),
            text,
        }
    }
}

/// The message that a stored row holds, or `None` where a column is not in
/// its stored form.
pub open spec fn message_of_row(r: RowModel) -> Option<MessageModel> {
    match (timestamp_of_text(r.timestamp), type_of_name(r.message_type)) {
        (Some(t), Some(k)) => if r.from_me == 0 || r.from_me == 1 {
            Some(
                MessageModel {
                    id: r.id,
                    from_me: r.from_me == 1,
                    timestamp: t,
                    message_type: k,
                    chat_jid: r.chat_jid,
                    text: r.text,
                },
            )
        } else {
            None
        },
        _ => None,
    }
}

/// A stored message reads back unchanged from its row.
pub proof fn lemma_row_round_trip(m: Message)
    requires
        m.wf(),
    ensures
        message_of_row(row_of(m)) == Some(m@),
{
    lemma_timestamp_round_trip(m.timestamp);
    lemma_type_name_round_trip(m.message_type);
}

impl MessageRow {
    /// Reads the message back from a stored row.
    pub fn to_message(&self) -> (r: Option<Message>)
        ensures
            match r {
                Some(m) => message_of_row(self@) == Some(m@),
                None => message_of_row(self@) is None,
            },
    {
        let timestamp = match Timestamp::parse(self.timestamp.as_str()) {
            Some(t) => t,
            None => {
                return None;
            },
        };
        let message_type = match MessageType::from_name(&self.message_type) {
            Some(k) => k,
            None => {
                return None;
            },
        };
        if self.from_me != 0 && self.from_me != 1 {
            return None;
        }
        let text = match &self.text {
            Some(t) => Some(t.clone()),
            None => None,
        };
        Some(
            Message {
                id: self.id.clone(),
                from_me: self.from_me == 1,
                timestamp,
                message_type,
                chat_jid: self.chat_jid.clone(),
                text,
            },
        )
    }

    /// The values bound to the insert, in column order.
    pub fn params(&self) -> (r: Vec<SqlValue>)
        ensures
            r@.len() == 6,
            r@[0] matches SqlValue::Text(t) && t@ == self.id@,
            r@[1] == SqlValue::Integer(self.from_me),
            r@[2] matches SqlValue::Text(t) && t@ == self.timestamp@,
            r@[3] matches SqlValue::Text(t) && t@ == self.message_type@,
            r@[4] matches SqlValue::Text(t) && t@ == self.chat_jid@,
            match self.text {
                Some(s) => r@[5] matches SqlValue::Text(t) && t@ == s@,
                None => r@[5] == SqlValue::Null,
            },
    {
        let text = match &self.text {
            Some(t) => SqlValue::Text(t.clone()),
            None => SqlValue::Null,
        };
        let mut r: Vec<SqlValue> = Vec::new();
        r.push(SqlValue::Text(self.id.clone()));
        r.push(SqlValue::Integer(self.from_me));
        r.push(SqlValue::Text(self.timestamp.clone()));
        r.push(SqlValue::Text(self.message_type.clone()));
        r.push(SqlValue::Text(self.chat_jid.clone()));
        r.push(text);
        r
    }
}

} // verus!
