use vstd::prelude::*;
use crate::shared::clock::Timestamp;
use crate::shared::ident::{generate_id, ID_LENGTH};
use crate::shared::text::{same_text, text_of, texts};
use crate::shared::traits::{Event, Identifiable, Severity, Validatable};

verus! {

/// One service of the host, as the service manager reports it.
#[derive(Debug, Clone)]
pub struct ServiceInformation {
    pub id: String,
    pub timestamp: Timestamp,
    pub source: String,
    pub category: String,
    pub name: String,
    pub display_name: String,
    pub status: String,
    pub startup_type: String,
    pub process_id: Option<u32>,
    pub dependencies: Vec<String>,
}

/// A service as plain values.
pub struct ServiceInformationView {
    pub id: Seq<char>,
    pub timestamp: Timestamp,
    pub source: Seq<char>,
    pub category: Seq<char>,
    pub name: Seq<char>,
    pub display_name: Seq<char>,
    pub status: Seq<char>,
    pub startup_type: Seq<char>,
    pub process_id: Option<u32>,
    pub dependencies: Seq<Seq<char>>,
}

impl View for ServiceInformation {
    type V = ServiceInformationView;

    open spec fn view(&self) -> ServiceInformationView {
        ServiceInformationView {
            id: self.id@,
            timestamp: self.timestamp,
            source: self.source@,
            category: self.category@,
            name: self.name@,
            display_name: self.display_name@,
            status: self.status@,
            startup_type: self.startup_type@,
            process_id: self.process_id,
            dependencies: texts(self.dependencies@),
        }
    }
}

/// The severity of a service in a given status: a stopped service is of high
/// severity, one that is starting or stopping of medium, any other of low.
pub open spec fn status_severity(status: Seq<char>) -> Severity {
    if status == "Stopped"@ {
        Severity::High
    } else if status == "Starting"@ || status == "Stopping"@ {
        Severity::Medium
    } else {
        Severity::Low
    }
}

impl ServiceInformationView {
    /// The invariants of a service: name, display name, status and startup
    /// type are not empty.
    pub open spec fn valid(self) -> bool {
        &&& self.name.len() > 0
        &&& self.display_name.len() > 0
        &&& self.status.len() > 0
        &&& self.startup_type.len() > 0
    }

    /// The message of the first invariant that the service breaks, if any.
    pub open spec fn violation(self) -> Option<Seq<char>> {
        if self.name.len() == 0 {
            Some("Service name cannot be empty"@)
        } else if self.display_name.len() == 0 {
            Some("Display name cannot be empty"@)
        } else if self.status.len() == 0 {
            Some("Status cannot be empty"@)
        } else if self.startup_type.len() == 0 {
            Some("Startup type cannot be empty"@)
        } else {
            None
        }
    }
}

impl Event for ServiceInformation {
    fn timestamp(&self) -> (t: Timestamp)
        ensures
            t == self.timestamp,
    {
        self.timestamp
    }

    fn source(&self) -> (s: &str)
        ensures
            s@ == self.source@,
    {
        self.source.as_str()
    }

    fn event_type(&self) -> (s: &str)
        ensures
            s@ == "service_metrics"@,
    {
        "service_metrics"
    }

    fn severity(&self) -> (s: Severity)
        ensures
            s == status_severity(self.status@),
    {
        let status = self.status.as_str();
        if same_text(status, "Stopped") {
            Severity::High
        } else if same_text(status, "Starting") || same_text(status, "Stopping") {
            Severity::Medium
        } else {
            Severity::Low
        }
    }
}

impl Identifiable for ServiceInformation {
    fn id(&self) -> (s: &str)
        ensures
            s@ == self.id@,
    {
        self.id.as_str()
    }

    fn category(&self) -> (s: &str)
        ensures
            s@ == self.category@,
    {
        self.category.as_str()
    }
}

impl Validatable for ServiceInformation {
    open spec fn valid(&self) -> bool {
        self@.valid()
    }

    fn validate(&self) -> (r: Result<(), String>)
        ensures
            r matches Err(m) ==> self@.violation() == Some(m@),
    {
        if self.name.as_str().is_empty() {
            return Err(String::from_str("Service name cannot be empty"));
        }
        if self.display_name.as_str().is_empty() {
            return Err(String::from_str("Display name cannot be empty"));
        }
        if self.status.as_str().is_empty() {
            return Err(String::from_str("Status cannot be empty"));
        }
        if self.startup_type.as_str().is_empty() {
            return Err(String::from_str("Startup type cannot be empty"));
        }
        Ok(())
    }
}

/// Accumulates the fields of a service. Nothing of it is a record until
/// `build` has accepted it.
pub struct ServiceInformationBuilder {
    id: Option<String>,
    timestamp: Option<Timestamp>,
    source: Option<String>,
    category: Option<String>,
    name: Option<String>,
    display_name: Option<String>,
    status: Option<String>,
    startup_type: Option<String>,
    process_id: Option<u32>,
    dependencies: Option<Vec<String>>,
}

/// The fields that a builder holds so far, as plain values.
pub struct ServiceInformationBuilderView {
    pub id: Option<Seq<char>>,
    pub timestamp: Option<Timestamp>,
    pub source: Option<Seq<char>>,
    pub category: Option<Seq<char>>,
    pub name: Option<Seq<char>>,
    pub display_name: Option<Seq<char>>,
    pub status: Option<Seq<char>>,
    pub startup_type: Option<Seq<char>>,
    pub process_id: Option<u32>,
    pub dependencies: Option<Seq<Seq<char>>>,
}

impl ServiceInformationBuilderView {
    /// The builder that holds nothing.
    pub open spec fn empty() -> ServiceInformationBuilderView {
        ServiceInformationBuilderView {
            id: None,
            timestamp: None,
            source: None,
            category: None,
            name: None,
            display_name: None,
            status: None,
            startup_type: None,
            process_id: None,
            dependencies: None,
        }
    }

    /// The message for the first required field that is missing, if any. The
    /// identifier is not required: `build` generates it.
    pub open spec fn missing(self) -> Option<Seq<char>> {
        if self.timestamp is None {
            Some("timestamp is required"@)
        } else if self.source is None {
            Some("source is required"@)
        } else if self.category is None {
            Some("category is required"@)
        } else if self.name is None {
            Some("name is required"@)
        } else if self.display_name is None {
            Some("display_name is required"@)
        } else if self.status is None {
            Some("status is required"@)
        } else if self.startup_type is None {
            Some("startup_type is required"@)
        } else {
            None
        }
    }

    /// The record that the fields make, with `id` standing in where the
    /// builder holds none and no dependencies where none were given.
    /// Meaningful where nothing is missing.
    pub open spec fn service(self, id: Seq<char>) -> ServiceInformationView {
        ServiceInformationView {
            id: if self.id is Some { self.id->0 } else { id },
            timestamp: self.timestamp->0,
            source: self.source->0,
            category: self.category->0,
            name: self.name->0,
            display_name: self.display_name->0,
            status: self.status->0,
            startup_type: self.startup_type->0,
            process_id: self.process_id,
            dependencies: if self.dependencies is Some {
                self.dependencies->0
            } else {
                Seq::empty()
            },
        }
    }

    /// Why `build` refuses these fields, if it does: a required field is
    /// missing, or the record would break an invariant.
    pub open spec fn rejection(self) -> Option<Seq<char>> {
        if self.missing() is Some {
            self.missing()
        } else {
            self.service(Seq::empty()).violation()
        }
    }
}

impl View for ServiceInformationBuilder {
    type V = ServiceInformationBuilderView;

    closed spec fn view(&self) -> ServiceInformationBuilderView {
        ServiceInformationBuilderView {
            id: text_of(self.id),
            timestamp: self.timestamp,
            source: text_of(self.source),
            category: text_of(self.category),
            name: text_of(self.name),
            display_name: text_of(self.display_name),
            status: text_of(self.status),
            startup_type: text_of(self.startup_type),
            process_id: self.process_id,
            dependencies: match self.dependencies {
                Some(list) => Some(texts(list@)),
                None => None,
            },
        }
    }
}

impl ServiceInformationBuilder {
    pub fn new() -> (b: Self)
        ensures
            b@ == ServiceInformationBuilderView::empty(),
    {
        ServiceInformationBuilder {
            id: None,
            timestamp: None,
            source: None,
            category: None,
            name: None,
            display_name: None,
            status: None,
            startup_type: None,
            process_id: None,
            dependencies: None,
        }
    }

    pub fn id(self, id: String) -> (b: Self)
        ensures
            b@ == (ServiceInformationBuilderView { id: Some(id@), ..self@ }),
    {
        let mut next = self;
        next.id = Some(id);
        next
    }

    pub fn timestamp(self, timestamp: Timestamp) -> (b: Self)
        ensures
            b@ == (ServiceInformationBuilderView { timestamp: Some(timestamp), ..self@ }),
    {
        let mut next = self;
        next.timestamp = Some(timestamp);
        next
    }

    pub fn source(self, source: String) -> (b: Self)
        ensures
            b@ == (ServiceInformationBuilderView { source: Some(source@), ..self@ }),
    {
        let mut next = self;
        next.source = Some(source);
        next
    }

    pub fn category(self, category: String) -> (b: Self)
        ensures
            b@ == (ServiceInformationBuilderView { category: Some(category@), ..self@ }),
    {
        let mut next = self;
        next.category = Some(category);
        next
    }

    pub fn name(self, name: String) -> (b: Self)
        ensures
            b@ == (ServiceInformationBuilderView { name: Some(name@), ..self@ }),
    {
        let mut next = self;
        next.name = Some(name);
        next
    }

    pub fn display_name(self, display_name: String) -> (b: Self)
        ensures
            b@ == (ServiceInformationBuilderView { display_name: Some(display_name@), ..self@ }),
    {
        let mut next = self;
        next.display_name = Some(display_name);
        next
    }

    pub fn status(self, status: String) -> (b: Self)
        ensures
            b@ == (ServiceInformationBuilderView { status: Some(status@), ..self@ }),
    {
        let mut next = self;
        next.status = Some(status);
        next
    }

    pub fn startup_type(self, startup_type: String) -> (b: Self)
        ensures
            b@ == (ServiceInformationBuilderView { startup_type: Some(startup_type@), ..self@ }),
    {
        let mut next = self;
        next.startup_type = Some(startup_type);
        next
    }

    pub fn process_id(self, process_id: u32) -> (b: Self)
        ensures
            b@ == (ServiceInformationBuilderView { process_id: Some(process_id), ..self@ }),
    {
        let mut next = self;
        next.process_id = Some(process_id);
        next
    }

    pub fn dependencies(self, dependencies: Vec<String>) -> (b: Self)
        ensures
            b@ == (ServiceInformationBuilderView {
                dependencies: Some(texts(dependencies@)),
                ..self@
            }),
    {
        let mut next = self;
        next.dependencies = Some(dependencies);
        next
    }

    /// Builds the record, with the given identifier standing in where the
    /// builder holds none. Fails with the message for the first missing
    /// field, or else with that of the first broken invariant.
    pub fn build_with(self, id: String) -> (r: Result<ServiceInformation, String>)
        ensures
            match r {
                Ok(service) => self@.rejection() is None && service@ == self@.service(id@)
                    && service@.valid(),
                Err(message) => self@.rejection() == Some(message@),
            },
    {
        let id = match self.id {
            Some(given) => given,
            None => id,
        };
        let timestamp = match self.timestamp {
            Some(timestamp) => timestamp,
            None => { return Err(String::from_str("timestamp is required")); },
        };
        let source = match self.source {
            Some(source) => source,
            None => { return Err(String::from_str("source is required")); },
        };
        let category = match self.category {
            Some(category) => category,
            None => { return Err(String::from_str("category is required")); },
        };
        let name = match self.name {
            Some(name) => name,
            None => { return Err(String::from_str("name is required")); },
        };
        let display_name = match self.display_name {
            Some(display_name) => display_name,
            None => { return Err(String::from_str("display_name is required")); },
        };
        let status = match self.status {
            Some(status) => status,
            None => { return Err(String::from_str("status is required")); },
        };
        let startup_type = match self.startup_type {
            Some(startup_type) => startup_type,
            None => { return Err(String::from_str("startup_type is required")); },
        };
        let dependencies = match self.dependencies {
            Some(dependencies) => dependencies,
            None => Vec::new(),
        };
        let service = ServiceInformation {
            id,
            timestamp,
            source,
            category,
            name,
            display_name,
            status,
            startup_type,
            process_id: self.process_id,
            dependencies,
        };
        assert(service@.dependencies == self@.service(id@).dependencies);
        match service.validate() {
            Ok(()) => Ok(service),
            Err(message) => Err(message),
        }
    }

    /// Builds the record. An identifier that was not set is generated. Fails
    /// with the message for the first missing field, or else with that of the
    /// first broken invariant.
    pub fn build(self) -> (r: Result<ServiceInformation, String>)
        ensures
            match r {
                Ok(service) => {
                    &&& self@.rejection() is None
                    &&& service@ == self@.service(service@.id)
                    &&& self@.id is None ==> service@.id.len() == ID_LENGTH
                    &&& service@.valid()
                },
                Err(message) => self@.rejection() == Some(message@),
            },
    {
        let id = if self.id.is_none() {
            generate_id()
        } else {
            String::new()
        };
        self.build_with(id)
    }
}

impl Default for ServiceInformationBuilder {
    fn default() -> (b: Self)
        ensures
            b@ == ServiceInformationBuilderView::empty(),
    {
        ServiceInformationBuilder::new()
    }
}

} // verus!
