//! Elements bound to a piece of application data.
use vstd::prelude::*;
use crate::connection::JsonScalar;
use crate::element::{ElementId, opt_view};
use crate::error::Error;

verus! {

/// A binding to data at a path; the data is a JSON value as the client
/// sends it.
pub struct SimpleDataBinding {
    pub binding_path: Option<String>,
    pub current_data: Option<JsonScalar>,
}

impl SimpleDataBinding {
    /// A binding with no path and no data.
    pub fn new() -> (r: SimpleDataBinding)
        ensures
            r.binding_path.is_none(),
            r.current_data.is_none(),
    {
        SimpleDataBinding { binding_path: None, current_data: None }
    }

    /// Set the path.
    pub fn set_binding_path(&mut self, path: &str)
        ensures
            opt_view(final(self).binding_path) == Some(path@),
            final(self).current_data == old(self).current_data,
    {
        self.binding_path = Some(path.to_owned());
    }

    /// The path, if set.
    pub fn binding_path(&self) -> (r: Option<&str>)
        ensures
            match r {
                Some(s) => opt_view(self.binding_path) == Some(s@),
                None => self.binding_path.is_none(),
            },
    {
        match &self.binding_path {
            Some(p) => Some(p.as_str()),
            None => None,
        }
    }

    /// Replace the data.
    pub fn update_data(&mut self, data: JsonScalar)
        ensures
            final(self).current_data == Some(data),
            final(self).binding_path == old(self).binding_path,
    {
        self.current_data = Some(data);
    }

    /// The data, if any.
    pub fn get_data(&self) -> (r: Option<&JsonScalar>)
        ensures
            match r {
                Some(d) => self.current_data == Some(*d),
                None => self.current_data.is_none(),
            },
    {
        match &self.current_data {
            Some(d) => Some(d),
            None => None,
        }
    }
}

impl Default for SimpleDataBinding {
    fn default() -> (r: SimpleDataBinding)
        ensures
            r.binding_path.is_none(),
            r.current_data.is_none(),
    {
        SimpleDataBinding::new()
    }
}

/// A text input whose value follows bound data.
pub struct DataBindableTextInput {
    pub id: ElementId,
    pub label: String,
    pub value: String,
    pub binding: SimpleDataBinding,
}

impl DataBindableTextInput {
    /// An empty input with an empty binding.
    pub fn new(id: ElementId, label: &str) -> (r: DataBindableTextInput)
        ensures
            r.id == id,
            r.label@ == label@,
            r.value@ == Seq::<char>::empty(),
            r.binding.binding_path.is_none(),
            r.binding.current_data.is_none(),
    {
        DataBindableTextInput {
            id,
            label: label.to_owned(),
            value: String::new(),
            binding: SimpleDataBinding::new(),
        }
    }

    /// The label.
    pub fn label(&self) -> (r: &str)
        ensures
            r@ == self.label@,
    {
        self.label.as_str()
    }

    /// The current text.
    pub fn value(&self) -> (r: &str)
        ensures
            r@ == self.value@,
    {
        self.value.as_str()
    }

    /// Replace the text.
    pub fn set_value(&mut self, value: &str)
        ensures
            final(self).value@ == value@,
            final(self).label == old(self).label,
            final(self).binding == old(self).binding,
    {
        self.value = value.to_owned();
    }

    /// Bind to a data path.
    pub fn set_binding_path(&mut self, path: &str)
        ensures
            opt_view(final(self).binding.binding_path) == Some(path@),
            final(self).binding.current_data == old(self).binding.current_data,
            final(self).value == old(self).value,
    {
        self.binding.set_binding_path(path);
    }

    /// Take the text from bound data; data that is not a string is refused
    /// and nothing changes.
    pub fn update_from_data(&mut self, data: &JsonScalar) -> (r: Result<(), Error>)
        ensures
            r.is_ok() == (*data matches JsonScalar::Text(_)),
            r.is_ok() ==> (*data matches JsonScalar::Text(s) && final(self).value@ == s@)
                && final(self).binding.current_data == Some(*data)
                && final(self).binding.binding_path == old(self).binding.binding_path,
            !r.is_ok() ==> final(self).value == old(self).value && final(self).binding == old(self).binding
                && r matches Err(Error::StateError(_)),
    {
        match data {
            JsonScalar::Text(s) => {
                self.value = s.clone();
                self.binding.update_data(data.clone());
                Ok(())
            },
            _ => Err(Error::state("Invalid data for text input")),
        }
    }

    /// The bound data, if any.
    pub fn get_bound_data(&self) -> (r: Option<&JsonScalar>)
        ensures
            match r {
                Some(d) => self.binding.current_data == Some(*d),
                None => self.binding.current_data.is_none(),
            },
    {
        self.binding.get_data()
    }
}

} // verus!
