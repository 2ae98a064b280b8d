use vstd::prelude::*;
use crate::decimal::{decimal, decimal_string};

verus! {

/// The scale of the picture, one to `value`, with the text of the input field
/// in which the user edits it.
pub struct Scale {
    value: u32,
    value_string: String,
}

/// The mathematical value of a [`Scale`].
pub ghost struct ScaleView {
    pub value: nat,
    pub text: Seq<char>,
}

impl View for Scale {
    type V = ScaleView;

    closed spec fn view(&self) -> ScaleView {
        ScaleView { value: self.value as nat, text: self.value_string@ }
    }
}

impl Scale {
    pub fn new(default_scale: u32) -> (scale: Self)
        ensures
            scale@ == (ScaleView { value: default_scale as nat, text: decimal(default_scale as nat) }),
    {
        Scale { value: default_scale, value_string: decimal_string(default_scale) }
    }

    pub fn value(&self) -> (value: u32)
        ensures
            value == self@.value,
    {
        self.value
    }

    pub fn value_string(&self) -> (text: &str)
        ensures
            text@ == self@.text,
    {
        self.value_string.as_str()
    }

    /// Sets the scale and writes it into the input field.
    pub fn set(&mut self, scale: u32)
        ensures
            final(self)@ == (ScaleView { value: scale as nat, text: decimal(scale as nat) }),
    {
        self.value = scale;
        self.value_string = decimal_string(scale);
    }

    /// Sets the scale and leaves the input field as it is. A scale of zero is not taken.
    pub fn set_value(&mut self, scale: u32)
        ensures
            final(self)@.text == old(self)@.text,
            final(self)@.value == if scale > 0 {
                scale as nat
            } else {
                old(self)@.value
            },
    {
        if scale > 0 {
            self.value = scale;
        }
    }

    /// Sets the text of the input field and leaves the scale as it is.
    pub fn set_string_value(&mut self, scale: String)
        ensures
            final(self)@ == (ScaleView { value: old(self)@.value, text: scale@ }),
    {
        self.value_string = scale;
    }

    pub fn reload(&mut self, default_scale: u32)
        ensures
            final(self)@ == (ScaleView { value: default_scale as nat, text: decimal(default_scale as nat) }),
    {
        self.value = default_scale;
        self.value_string = decimal_string(default_scale);
    }
}

} // verus!
