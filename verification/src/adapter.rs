//! What is known of the wireless adapter.

use vstd::prelude::*;

verus! {

/// The adapter behind the wireless device.
#[derive(Debug)]
pub struct Adapter {
    pub device_path: String,
    pub is_powered: bool,
    pub name: String,
    pub driver: Option<String>,
    pub vendor: Option<String>,
    pub supported_modes: Vec<String>,
}

/// Texts joined by single spaces.
pub open spec fn joined(texts: Seq<String>) -> Seq<char>
    decreases texts.len(),
{
    if texts.len() == 0 {
        Seq::<char>::empty()
    } else if texts.len() == 1 {
        texts[0]@
    } else {
        joined(texts.drop_last()) + " "@ + texts.last()@
    }
}

/// Joins texts by single spaces.
pub fn join(texts: &Vec<String>) -> (r: String)
    ensures
        r@ == joined(texts@),
{
    let mut line = String::new();
    let mut i: usize = 0;
    while i < texts.len()
        invariant
            i <= texts.len(),
            line@ == joined(texts@.take(i as int)),
        decreases texts.len() - i,
    {
        proof {
            let next = texts@.take(i as int + 1);
            assert(next.drop_last() == texts@.take(i as int));
            assert(next.last() == texts@[i as int]);
            if i == 0 {
                assert(line@ + texts@[0]@ == texts@[0]@);
            }
        }
        if i > 0 {
            line.append(" ");
        }
        line.append(texts[i].as_str());
        i += 1;
    }
    proof {
        assert(texts@.take(i as int) == texts@);
    }
    line
}

impl Adapter {
    /// The rows of the adapter's description, as label and value: name,
    /// address, supported modes, then driver and vendor where they are known.
    pub open spec fn described(self, device_addr: Seq<char>) -> Seq<(Seq<char>, Seq<char>)> {
        let base = seq![
            ("name"@, self.name@),
            ("address"@, device_addr),
            ("Supported modes"@, joined(self.supported_modes@)),
        ];
        let with_driver = match self.driver {
            Some(driver) => base.push(("driver"@, driver@)),
            None => base,
        };
        match self.vendor {
            Some(vendor) => with_driver.push(("vendor"@, vendor@)),
            None => with_driver,
        }
    }

    /// The adapter of a device: it supports station and access point mode;
    /// driver and vendor are not known to the connection service.
    pub fn new(device_path: String, is_powered: bool, name: String) -> (r: Adapter)
        ensures
            r.device_path == device_path,
            r.is_powered == is_powered,
            r.name == name,
            r.driver is None,
            r.vendor is None,
            r.supported_modes@.len() == 2,
            r.supported_modes@[0]@ == "station"@,
            r.supported_modes@[1]@ == "ap"@,
    {
        let mut supported_modes: Vec<String> = Vec::new();
        supported_modes.push("station".to_owned());
        supported_modes.push("ap".to_owned());
        Adapter { device_path, is_powered, name, driver: None, vendor: None, supported_modes }
    }

    /// Takes in whether the wireless radio is enabled.
    pub fn refresh(&mut self, is_powered: bool)
        ensures
            *final(self) == (Adapter { is_powered, ..*old(self) }),
    {
        self.is_powered = is_powered;
    }

    /// The rows of the adapter's description.
    pub fn info_rows(&self, device_addr: &str) -> (r: Vec<(String, String)>)
        ensures
            r@.len() == self.described(device_addr@).len(),
            forall|i: int|
                0 <= i < r@.len() ==> (#[trigger] r@[i]).0@ == self.described(device_addr@)[i].0
                    && r@[i].1@ == self.described(device_addr@)[i].1,
    {
        let mut rows: Vec<(String, String)> = Vec::new();
        rows.push(("name".to_owned(), self.name.clone()));
        rows.push(("address".to_owned(), device_addr.to_owned()));
        rows.push(("Supported modes".to_owned(), join(&self.supported_modes)));
        match &self.driver {
            Some(driver) => {
                rows.push(("driver".to_owned(), driver.clone()));
            },
            None => {},
        }
        match &self.vendor {
            Some(vendor) => {
                rows.push(("vendor".to_owned(), vendor.clone()));
            },
            None => {},
        }
        rows
    }
}

} // verus!
