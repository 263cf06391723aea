use vstd::prelude::*;
use vstd::string::*;

verus! {

/// The three names that identify a process: `process_name:package_name:publisher_node`.
#[derive(Clone, Debug)]
pub struct ProcessId {
    pub process_name: String,
    pub package_name: String,
    pub publisher_node: String,
}

/// Where a message comes from or goes to: a node and a process on it.
#[derive(Clone, Debug)]
pub struct Address {
    pub node: String,
    pub process: ProcessId,
}

/// The mathematical value of an [`Address`].
pub struct AddressView {
    pub node: Seq<char>,
    pub process_name: Seq<char>,
    pub package_name: Seq<char>,
    pub publisher_node: Seq<char>,
}

impl View for Address {
    type V = AddressView;

    open spec fn view(&self) -> AddressView {
        AddressView {
            node: self.node@,
            process_name: self.process.process_name@,
            package_name: self.process.package_name@,
            publisher_node: self.process.publisher_node@,
        }
    }
}

/// `name:package:publisher`, the text form of a process id.
pub open spec fn process_text(
    process_name: Seq<char>,
    package_name: Seq<char>,
    publisher_node: Seq<char>,
) -> Seq<char> {
    process_name + seq![':'] + package_name + seq![':'] + publisher_node
}

/// `package:publisher`, the text form of a package id.
pub open spec fn package_text(package_name: Seq<char>, publisher_node: Seq<char>) -> Seq<char> {
    package_name + seq![':'] + publisher_node
}

impl AddressView {
    pub open spec fn process_text(self) -> Seq<char> {
        process_text(self.process_name, self.package_name, self.publisher_node)
    }

    pub open spec fn package_text(self) -> Seq<char> {
        package_text(self.package_name, self.publisher_node)
    }
}

impl ProcessId {
    pub fn new(process_name: &str, package_name: &str, publisher_node: &str) -> (res: ProcessId)
        ensures
            res.process_name@ == process_name@,
            res.package_name@ == package_name@,
            res.publisher_node@ == publisher_node@,
    {
        ProcessId {
            process_name: process_name.to_owned(),
            package_name: package_name.to_owned(),
            publisher_node: publisher_node.to_owned(),
        }
    }

    /// A copy of the process id, field by field.
    pub fn duplicate(&self) -> (res: ProcessId)
        ensures
            res.process_name@ == self.process_name@,
            res.package_name@ == self.package_name@,
            res.publisher_node@ == self.publisher_node@,
    {
        ProcessId {
            process_name: self.process_name.clone(),
            package_name: self.package_name.clone(),
            publisher_node: self.publisher_node.clone(),
        }
    }

    /// The text form `name:package:publisher`.
    pub fn to_text(&self) -> (res: String)
        ensures
            res@ == process_text(
                self.process_name@,
                self.package_name@,
                self.publisher_node@,
            ),
    {
        let sep = ":";
        proof {
            reveal_strlit(":");
        }
        let res = self.process_name.clone().concat(sep).concat(self.package_name.as_str()).concat(
            sep,
        ).concat(self.publisher_node.as_str());
        res
    }

    /// The text form `package:publisher` of the package this process belongs to.
    pub fn package_id_text(&self) -> (res: String)
        ensures
            res@ == package_text(self.package_name@, self.publisher_node@),
    {
        proof {
            reveal_strlit(":");
        }
        self.package_name.clone().concat(":").concat(self.publisher_node.as_str())
    }
}

impl Address {
    pub fn new(node: &str, process: ProcessId) -> (res: Address)
        ensures
            res.node@ == node@,
            res.process.process_name@ == process.process_name@,
            res.process.package_name@ == process.package_name@,
            res.process.publisher_node@ == process.publisher_node@,
    {
        Address { node: node.to_owned(), process }
    }

    /// A copy of the address with the same view.
    pub fn duplicate(&self) -> (res: Address)
        ensures
            res@ == self@,
    {
        Address { node: self.node.clone(), process: self.process.duplicate() }
    }

    /// Whether two addresses name the same node and process.
    pub fn same_as(&self, other: &Address) -> (res: bool)
        ensures
            res == (self@ == other@),
    {
        self.node == other.node && self.process.process_name == other.process.process_name
            && self.process.package_name == other.process.package_name
            && self.process.publisher_node == other.process.publisher_node
    }
}

} // verus!
