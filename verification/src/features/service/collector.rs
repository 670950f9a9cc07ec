use vstd::prelude::*;
use crate::features::service::models::{
    ServiceInformation, ServiceInformationBuilder, ServiceInformationView,
};
use crate::shared::clock::Timestamp;
use crate::shared::error::CollectionError;
use crate::shared::ident::ID_LENGTH;
use crate::shared::pattern::{first_group, gbk_decode, gbk_text, regex_capture, MAX_DECODER_INPUT};
use crate::shared::scan::{
    lines, lines_of, split_whitespace, trim, trim_end_matches, trimmed, without_suffixes, words,
};
use crate::shared::text::{decode, decoded, texts};

verus! {

/// The platform whose service manager is asked.
#[derive(Debug, Clone, Copy, PartialEq, Eq, Structural)]
pub enum Platform {
    Windows,
    Linux,
    Other,
}

/// What a service manager tells of one service.
pub struct ServiceDraft {
    pub name: Seq<char>,
    pub display_name: Seq<char>,
    pub status: Seq<char>,
}

/// What one line of the service listing tells.
#[derive(Debug, Clone)]
pub enum ListingLine {
    /// The line names a service.
    ServiceName(String),
    /// The line gives the display name of the service that was named last.
    DisplayName(String),
    /// The line gives the state of the service that was described last.
    State(String),
    /// The line tells nothing.
    Other,
}

/// A line of the listing as plain values.
pub enum ListingLineView {
    ServiceName(Seq<char>),
    DisplayName(Seq<char>),
    State(Seq<char>),
    Other,
}

impl View for ListingLine {
    type V = ListingLineView;

    open spec fn view(&self) -> ListingLineView {
        match self {
            ListingLine::ServiceName(text) => ListingLineView::ServiceName(text@),
            ListingLine::DisplayName(text) => ListingLineView::DisplayName(text@),
            ListingLine::State(text) => ListingLineView::State(text@),
            ListingLine::Other => ListingLineView::Other,
        }
    }
}

/// The expression for a line that names a service.
pub open spec fn service_name_pattern() -> Seq<char> {
    "SERVICE_NAME:\\s*(.+)"@
}

/// The expression for a line that gives a display name.
pub open spec fn display_name_pattern() -> Seq<char> {
    "DISPLAY_NAME:\\s*(.+)"@
}

/// The expression for a line that gives a state.
pub open spec fn state_pattern() -> Seq<char> {
    "STATE\\s*:\\s*\\d+\\s*(.+)"@
}

/// What a line of the listing tells: the first of the three expressions that
/// matches decides, and what its group holds is taken without the white space
/// around it.
pub open spec fn listing_line(line: Seq<char>) -> ListingLineView {
    if first_group(service_name_pattern(), line) is Some {
        ListingLineView::ServiceName(trimmed(first_group(service_name_pattern(), line)->0))
    } else if first_group(display_name_pattern(), line) is Some {
        ListingLineView::DisplayName(trimmed(first_group(display_name_pattern(), line)->0))
    } else if first_group(state_pattern(), line) is Some {
        ListingLineView::State(trimmed(first_group(state_pattern(), line)->0))
    } else {
        ListingLineView::Other
    }
}

/// How far the reading of a listing has come: the services that are
/// complete, the one that is being described, and the name that was read
/// last.
pub struct ListingState {
    pub done: Seq<ServiceDraft>,
    pub current: Option<ServiceDraft>,
    pub current_name: Seq<char>,
}

/// Why a service with this name and display name cannot be recorded, if it
/// cannot: one of them is empty.
pub open spec fn draft_rejection(name: Seq<char>, display_name: Seq<char>) -> Option<Seq<char>> {
    if name.len() == 0 {
        Some("Service name cannot be empty"@)
    } else if display_name.len() == 0 {
        Some("Display name cannot be empty"@)
    } else {
        None
    }
}

impl ListingState {
    /// Nothing read yet.
    pub open spec fn start() -> ListingState {
        ListingState { done: Seq::empty(), current: None, current_name: Seq::empty() }
    }

    /// The state after one more line, or the message for a service that
    /// cannot be recorded. A name completes the service that was being
    /// described. A display name begins the description of the service that
    /// was named last, with an unknown status. A state sets the status of the
    /// service that is being described.
    pub open spec fn step(self, line: ListingLineView) -> Result<ListingState, Seq<char>> {
        match line {
            ListingLineView::ServiceName(name) => Ok(
                ListingState {
                    done: match self.current {
                        Some(service) => self.done.push(service),
                        None => self.done,
                    },
                    current: None,
                    current_name: name,
                },
            ),
            ListingLineView::DisplayName(display_name) => match draft_rejection(
                self.current_name,
                display_name,
            ) {
                Some(message) => Err(message),
                None => Ok(
                    ListingState {
                        current: Some(
                            ServiceDraft {
                                name: self.current_name,
                                display_name,
                                status: "Unknown"@,
                            },
                        ),
                        ..self
                    },
                ),
            },
            ListingLineView::State(status) => match self.current {
                Some(service) => Ok(
                    ListingState { current: Some(ServiceDraft { status, ..service }), ..self },
                ),
                None => Ok(self),
            },
            ListingLineView::Other => Ok(self),
        }
    }

    /// The services of a listing that was read to its end.
    pub open spec fn finish(self) -> Seq<ServiceDraft> {
        match self.current {
            Some(service) => self.done.push(service),
            None => self.done,
        }
    }
}

/// The state after the lines of a listing, taken in order, or the message
/// for the first service that cannot be recorded.
pub open spec fn listing_after(table: Seq<Seq<char>>) -> Result<ListingState, Seq<char>>
    decreases table.len(),
{
    if table.len() == 0 {
        Ok(ListingState::start())
    } else {
        match listing_after(table.drop_last()) {
            Ok(state) => state.step(listing_line(table.last())),
            Err(message) => Err(message),
        }
    }
}

/// The services that the listing of the Windows service manager tells of.
pub open spec fn listed_services(output: Seq<u8>) -> Result<Seq<ServiceDraft>, Seq<char>> {
    match listing_after(lines_of(gbk_text(output))) {
        Ok(state) => Ok(state.finish()),
        Err(message) => Err(message),
    }
}

/// What a row of the unit table of the Linux service manager tells, if it
/// tells of a unit: the row has four words or more; the first is the unit's
/// name, taken without the suffix `.service`, and the fourth is its status.
pub open spec fn unit_of(row: Seq<char>) -> Option<ServiceDraft> {
    let parts = words(row);
    if parts.len() >= 4 {
        Some(
            ServiceDraft {
                name: without_suffixes(parts[0], ".service"@),
                display_name: without_suffixes(parts[0], ".service"@),
                status: parts[3],
            },
        )
    } else {
        None
    }
}

/// The units after the rows of a table, taken in order, or the message for
/// the first unit that cannot be recorded.
pub open spec fn units_after(rows: Seq<Seq<char>>) -> Result<Seq<ServiceDraft>, Seq<char>>
    decreases rows.len(),
{
    if rows.len() == 0 {
        Ok(Seq::empty())
    } else {
        match units_after(rows.drop_last()) {
            Ok(units) => match unit_of(rows.last()) {
                Some(unit) => if unit.name.len() == 0 {
                    Err("Service name cannot be empty"@)
                } else if unit.status.len() == 0 {
                    Err("Status cannot be empty"@)
                } else {
                    Ok(units.push(unit))
                },
                None => Ok(units),
            },
            Err(message) => Err(message),
        }
    }
}

/// The rows of a unit table: its lines behind the header line.
pub open spec fn unit_rows(text: Seq<char>) -> Seq<Seq<char>> {
    if lines_of(text).len() <= 1 {
        Seq::empty()
    } else {
        lines_of(text).subrange(1, lines_of(text).len() as int)
    }
}

/// The units that the unit table of the Linux service manager tells of. A
/// table that is not well-formed UTF-8 tells of none.
pub open spec fn listed_units(output: Seq<u8>) -> Result<Seq<ServiceDraft>, Seq<char>> {
    match decoded(output) {
        Some(text) => units_after(unit_rows(text)),
        None => Ok(Seq::empty()),
    }
}

/// What the service manager told of a recorded service.
pub open spec fn draft_of(service: ServiceInformationView) -> ServiceDraft {
    ServiceDraft {
        name: service.name,
        display_name: service.display_name,
        status: service.status,
    }
}

/// What the service manager told of each recorded service.
pub open spec fn drafts(services: Seq<ServiceInformation>) -> Seq<ServiceDraft> {
    services.map_values(|s: ServiceInformation| draft_of(s@))
}

/// Whether a record has, beside what the service manager told, what every
/// record of this inventory has: the host as its source, the category, an
/// unknown startup type, no process and no dependencies, and an identifier
/// of its own.
pub open spec fn recorded_for(service: ServiceInformationView, hostname: Seq<char>) -> bool {
    &&& service.source == hostname
    &&& service.category == "service"@
    &&& service.startup_type == "Unknown"@
    &&& service.process_id is None
    &&& service.dependencies == Seq::<Seq<char>>::empty()
    &&& service.id.len() == ID_LENGTH
}

/// Whether every record of a list is recorded for the host.
pub open spec fn all_recorded_for(services: Seq<ServiceInformation>, hostname: Seq<char>) -> bool {
    forall|k: int| 0 <= k < services.len() ==> recorded_for((#[trigger] services[k])@, hostname)
}

/// The reading of a listing, as far as it has come.
pub struct ServiceScan {
    pub services: Vec<ServiceInformation>,
    pub current_service: Option<ServiceInformation>,
    pub current_name: String,
}

impl View for ServiceScan {
    type V = ListingState;

    open spec fn view(&self) -> ListingState {
        ListingState {
            done: drafts(self.services@),
            current: match self.current_service {
                Some(service) => Some(draft_of(service@)),
                None => None,
            },
            current_name: self.current_name@,
        }
    }
}

impl ServiceScan {
    /// Whether every record of the reading is recorded for the host.
    pub open spec fn recorded_for(&self, hostname: Seq<char>) -> bool {
        &&& all_recorded_for(self.services@, hostname)
        &&& self.current_service matches Some(service) ==> recorded_for(service@, hostname)
    }

    /// Nothing read yet.
    pub fn new() -> (scan: Self)
        ensures
            scan@ == ListingState::start(),
            scan.services@.len() == 0,
            scan.current_service is None,
    {
        let scan = ServiceScan {
            services: Vec::new(),
            current_service: None,
            current_name: String::new(),
        };
        assert(drafts(scan.services@) == Seq::<ServiceDraft>::empty());
        scan
    }

    /// Takes in one more line of the listing. Fails where the line begins the
    /// description of a service that cannot be recorded.
    pub fn step(self, line: ListingLine, hostname: &str) -> (r: Result<ServiceScan, CollectionError>)
        ensures
            match r {
                Ok(next) => self@.step(line@) == Ok::<ListingState, Seq<char>>(next@) && (
                self.recorded_for(hostname@) ==> next.recorded_for(hostname@)),
                Err(e) => e matches CollectionError::Parse(message) && self@.step(line@) == Err::<
                    ListingState,
                    Seq<char>,
                >(message@),
            },
    {
        let mut services = self.services;
        match line {
            ListingLine::ServiceName(name) => {
                let ghost before = services@;
                match self.current_service {
                    Some(service) => {
                        services.push(service);
                        assert(drafts(services@) == drafts(before).push(draft_of(service@)));
                        assert(self.recorded_for(hostname@) ==> all_recorded_for(
                            services@,
                            hostname@,
                        )) by {
                            if self.recorded_for(hostname@) {
                            }
                        }
                    },
                    None => {},
                }
                Ok(ServiceScan { services, current_service: None, current_name: name })
            },
            ListingLine::DisplayName(display_name) => {
                proof {
                    reveal_strlit("Unknown");
                }
                let built = describe(
                    hostname,
                    self.current_name.clone(),
                    display_name,
                    String::from_str("Unknown"),
                );
                match built {
                    Ok(service) => Ok(
                        ServiceScan {
                            services,
                            current_service: Some(service),
                            current_name: self.current_name,
                        },
                    ),
                    Err(e) => Err(e),
                }
            },
            ListingLine::State(status) => {
                let current_service = match self.current_service {
                    Some(service) => {
                        let mut updated = service;
                        updated.status = status;
                        Some(updated)
                    },
                    None => None,
                };
                Ok(ServiceScan { services, current_service, current_name: self.current_name })
            },
            ListingLine::Other => Ok(
                ServiceScan {
                    services,
                    current_service: self.current_service,
                    current_name: self.current_name,
                },
            ),
        }
    }

    /// The services of a listing that was read to its end.
    pub fn finish(self) -> (services: Vec<ServiceInformation>)
        ensures
            drafts(services@) == self@.finish(),
            forall|hostname: Seq<char>|
                self.recorded_for(hostname) ==> all_recorded_for(services@, hostname),
    {
        let mut services = self.services;
        match self.current_service {
            Some(service) => {
                services.push(service);
            },
            None => {},
        }
        services
    }
}

/// Records a service under a fresh identifier and the current time, with an
/// unknown startup type. Fails where the name or the display name is empty,
/// or the status.
pub fn describe(hostname: &str, name: String, display_name: String, status: String) -> (r: Result<
    ServiceInformation,
    CollectionError,
>)
    ensures
        match r {
            Ok(service) => {
                &&& draft_of(service@) == (ServiceDraft {
                    name: name@,
                    display_name: display_name@,
                    status: status@,
                })
                &&& recorded_for(service@, hostname@)
                &&& service@.valid()
            },
            Err(e) => e matches CollectionError::Parse(message) && (if status@.len() == 0
                && draft_rejection(name@, display_name@) is None {
                message@ == "Status cannot be empty"@
            } else {
                draft_rejection(name@, display_name@) == Some(message@)
            }),
        },
{
    proof {
        reveal_strlit("Unknown");
    }
    let built = ServiceInformationBuilder::new().timestamp(Timestamp::now()).source(
        String::from_str(hostname),
    ).category(String::from_str("service")).name(name).display_name(display_name).status(
        status,
    ).startup_type(String::from_str("Unknown")).build();
    match built {
        Ok(service) => Ok(service),
        Err(message) => Err(CollectionError::Parse(message)),
    }
}

/// What a line of the listing tells.
pub fn read_listing_line(line: &str) -> (kind: ListingLine)
    ensures
        kind@ == listing_line(line@),
{
    if let Some(found) = regex_capture("SERVICE_NAME:\\s*(.+)", line) {
        return ListingLine::ServiceName(trim(found.as_str()));
    }
    if let Some(found) = regex_capture("DISPLAY_NAME:\\s*(.+)", line) {
        return ListingLine::DisplayName(trim(found.as_str()));
    }
    if let Some(found) = regex_capture("STATE\\s*:\\s*\\d+\\s*(.+)", line) {
        return ListingLine::State(trim(found.as_str()));
    }
    ListingLine::Other
}

/// The service inventory: it turns the output of the platform's service
/// manager into records.
pub struct ServiceCollector {
    hostname: String,
}

impl ServiceCollector {
    pub fn new(hostname: String) -> (collector: Self)
        ensures
            collector.hostname() == hostname@,
    {
        ServiceCollector { hostname }
    }

    /// The name of the host that records are made for.
    pub closed spec fn hostname(&self) -> Seq<char> {
        self.hostname@
    }

    /// Reads the listing of the Windows service manager. Fails with the
    /// message for the first service that cannot be recorded.
    pub fn parse_service_listing(&self, output: &Vec<u8>) -> (r: Result<
        Vec<ServiceInformation>,
        CollectionError,
    >)
        requires
            output.len() <= MAX_DECODER_INPUT,
        ensures
            match r {
                Ok(services) => listed_services(output@) == Ok::<Seq<ServiceDraft>, Seq<char>>(
                    drafts(services@),
                ) && all_recorded_for(services@, self.hostname()),
                Err(e) => e matches CollectionError::Parse(message) && listed_services(output@)
                    == Err::<Seq<ServiceDraft>, Seq<char>>(message@),
            },
    {
        let text = gbk_decode(output.as_slice());
        let table = lines(text.as_str());
        let mut scan = ServiceScan::new();
        let mut i: usize = 0;
        while i < table.len()
            invariant
                i <= table.len(),
                text@ == gbk_text(output@),
                texts(table@) == lines_of(text@),
                listing_after(lines_of(text@).subrange(0, i as int)) == Ok::<
                    ListingState,
                    Seq<char>,
                >(scan@),
                scan.recorded_for(self.hostname()),
            decreases table.len() - i,
        {
            let ghost done = lines_of(text@).subrange(0, i as int);
            let ghost next = lines_of(text@).subrange(0, i + 1);
            proof {
                assert(next.drop_last() == done);
            }
            let line = read_listing_line(table[i].as_str());
            match scan.step(line, self.hostname.as_str()) {
                Ok(advanced) => {
                    scan = advanced;
                },
                Err(e) => {
                    proof {
                        lemma_listing_failure_stays(lines_of(text@), i + 1);
                    }
                    return Err(e);
                },
            }
            i += 1;
        }
        assert(lines_of(text@).subrange(0, table.len() as int) == lines_of(text@));
        Ok(scan.finish())
    }

    /// Reads the unit table of the Linux service manager. Fails with the
    /// message for the first unit that cannot be recorded.
    pub fn parse_unit_table(&self, output: &Vec<u8>) -> (r: Result<
        Vec<ServiceInformation>,
        CollectionError,
    >)
        ensures
            match r {
                Ok(services) => listed_units(output@) == Ok::<Seq<ServiceDraft>, Seq<char>>(
                    drafts(services@),
                ) && all_recorded_for(services@, self.hostname()),
                Err(e) => e matches CollectionError::Parse(message) && listed_units(output@)
                    == Err::<Seq<ServiceDraft>, Seq<char>>(message@),
            },
    {
        let mut services: Vec<ServiceInformation> = Vec::new();
        assert(drafts(services@) == Seq::<ServiceDraft>::empty());
        let text = match decode(output) {
            Some(text) => text,
            None => { return Ok(services); },
        };
        let table = lines(text.as_str());
        if table.len() <= 1 {
            return Ok(services);
        }
        let ghost rows = unit_rows(text@);
        let mut i: usize = 1;
        while i < table.len()
            invariant
                1 <= i <= table.len(),
                text@ == decoded(output@)->0,
                decoded(output@) is Some,
                texts(table@) == lines_of(text@),
                rows == unit_rows(text@),
                rows.len() == table.len() - 1,
                units_after(rows.subrange(0, i - 1)) == Ok::<Seq<ServiceDraft>, Seq<char>>(
                    drafts(services@),
                ),
                all_recorded_for(services@, self.hostname()),
            decreases table.len() - i,
        {
            let ghost done = rows.subrange(0, i - 1);
            let ghost next = rows.subrange(0, i as int);
            proof {
                assert(next.drop_last() == done);
            }
            let parts = split_whitespace(table[i].as_str());
            if parts.len() >= 4 {
                let name = trim_end_matches(parts[0].as_str(), ".service");
                let built = describe(
                    self.hostname.as_str(),
                    name.clone(),
                    name,
                    parts[3].clone(),
                );
                match built {
                    Ok(service) => {
                        let ghost before = services@;
                        services.push(service);
                        assert(drafts(services@) == drafts(before).push(draft_of(service@)));
                    },
                    Err(e) => {
                        proof {
                            lemma_unit_failure_stays(rows, i as int);
                        }
                        return Err(e);
                    },
                }
            }
            i += 1;
        }
        assert(rows.subrange(0, rows.len() as int) == rows);
        Ok(services)
    }

    /// Whether `r` is what the output of the platform's service manager
    /// gives. Where the manager could not be run, or the platform has none
    /// that is known, there are no services to report. A listing that is too
    /// long to decode is refused.
    pub open spec fn reads(
        &self,
        platform: Platform,
        output: Option<&Vec<u8>>,
        r: Result<Vec<ServiceInformation>, CollectionError>,
    ) -> bool {
        match (platform, output) {
            (Platform::Windows, Some(bytes)) => if bytes.len() <= MAX_DECODER_INPUT {
                match r {
                    Ok(services) => listed_services(bytes@) == Ok::<Seq<ServiceDraft>, Seq<char>>(
                        drafts(services@),
                    ) && all_recorded_for(services@, self.hostname()),
                    Err(e) => e matches CollectionError::Parse(message) && listed_services(bytes@)
                        == Err::<Seq<ServiceDraft>, Seq<char>>(message@),
                }
            } else {
                r matches Err(e) && e is Parse
            },
            (Platform::Linux, Some(bytes)) => match r {
                Ok(services) => listed_units(bytes@) == Ok::<Seq<ServiceDraft>, Seq<char>>(
                    drafts(services@),
                ) && all_recorded_for(services@, self.hostname()),
                Err(e) => e matches CollectionError::Parse(message) && listed_units(bytes@)
                    == Err::<Seq<ServiceDraft>, Seq<char>>(message@),
            },
            _ => r matches Ok(services) && services.len() == 0,
        }
    }

    /// The services of the host, read off the output of the platform's
    /// service manager.
    pub fn collect_services(&self, platform: Platform, output: Option<&Vec<u8>>) -> (r: Result<
        Vec<ServiceInformation>,
        CollectionError,
    >)
        ensures
            self.reads(platform, output, r),
    {
        match (platform, output) {
            (Platform::Windows, Some(bytes)) => {
                if bytes.len() > MAX_DECODER_INPUT {
                    return Err(
                        CollectionError::Parse(String::from_str("Service listing is too long")),
                    );
                }
                self.parse_service_listing(bytes)
            },
            (Platform::Linux, Some(bytes)) => self.parse_unit_table(bytes),
            _ => Ok(Vec::new()),
        }
    }

    /// The services of the host: see `collect_services`.
    pub fn collect(&self, platform: Platform, output: Option<&Vec<u8>>) -> (r: Result<
        Vec<ServiceInformation>,
        CollectionError,
    >)
        ensures
            self.reads(platform, output, r),
    {
        self.collect_services(platform, output)
    }

    /// Checks that the platform's service manager can be run, given whether
    /// its command was found.
    pub fn internal_validate(&self, platform: Platform, command_found: bool) -> (r: Result<
        (),
        CollectionError,
    >)
        ensures
            r is Ok <==> (platform is Other || command_found),
            r matches Err(e) ==> e matches CollectionError::SystemApi(message) && message@ == (
            if platform is Windows {
                "sc command not found"@
            } else {
                "systemctl command not found"@
            }),
    {
        match platform {
            Platform::Windows => if !command_found {
                return Err(CollectionError::SystemApi(String::from_str("sc command not found")));
            },
            Platform::Linux => if !command_found {
                return Err(
                    CollectionError::SystemApi(String::from_str("systemctl command not found")),
                );
            },
            Platform::Other => {},
        }
        Ok(())
    }

    /// Checks that the platform's service manager can be run.
    pub fn validate(&self, platform: Platform, command_found: bool) -> (r: Result<
        (),
        CollectionError,
    >)
        ensures
            r is Ok <==> (platform is Other || command_found),
            r matches Err(e) ==> e matches CollectionError::SystemApi(message) && message@ == (
            if platform is Windows {
                "sc command not found"@
            } else {
                "systemctl command not found"@
            }),
    {
        self.internal_validate(platform, command_found)
    }

    /// Whether `validate` succeeds.
    pub fn health_check(&self, platform: Platform, command_found: bool) -> (healthy: bool)
        ensures
            healthy == (platform is Other || command_found),
    {
        self.internal_validate(platform, command_found).is_ok()
    }
}

/// Once the reading of a listing has failed, more lines do not mend it.
pub proof fn lemma_listing_failure_stays(table: Seq<Seq<char>>, upto: int)
    requires
        0 <= upto <= table.len(),
        listing_after(table.subrange(0, upto)) is Err,
    ensures
        listing_after(table) == listing_after(table.subrange(0, upto)),
    decreases table.len() - upto,
{
    if upto < table.len() {
        let longer = table.subrange(0, upto + 1);
        assert(longer.drop_last() == table.subrange(0, upto));
        lemma_listing_failure_stays(table, upto + 1);
    } else {
        assert(table.subrange(0, upto) == table);
    }
}

/// Once the reading of a unit table has failed, more rows do not mend it.
pub proof fn lemma_unit_failure_stays(rows: Seq<Seq<char>>, upto: int)
    requires
        0 <= upto <= rows.len(),
        units_after(rows.subrange(0, upto)) is Err,
    ensures
        units_after(rows) == units_after(rows.subrange(0, upto)),
    decreases rows.len() - upto,
{
    if upto < rows.len() {
        let longer = rows.subrange(0, upto + 1);
        assert(longer.drop_last() == rows.subrange(0, upto));
        lemma_unit_failure_stays(rows, upto + 1);
    } else {
        assert(rows.subrange(0, upto) == rows);
    }
}

} // verus!
