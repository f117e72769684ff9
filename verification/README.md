# pemv

Parsing and annotation of EMV payment data, with every parser verified by Verus.

The library (`src/`) reads:

- TLV data in BER-TLV and Ingenico's format, with masked data recognised
  (`emv::tlv_parsing`), and the processing of the parsed tags into named,
  parsed values (`emv::tlv_parsing::process_emv_tag`);
- values stored as bit flags: TVR, TSI, Terminal Capabilities, Additional
  Terminal Capabilities, CVR, CCI and CVM Results (`emv::bitflag_values` and
  the modules named after each value), with their binary representation and
  the meaning of each enabled bit, and the text of their breakdown
  (`emv::breakdown`), proved to join each enabled bit or range to its bits;
- CV Rules, CVM Lists, Issuer Application Data, Issuer Action Codes and the
  single-byte code values (terminal type, transaction type, POS entry mode,
  authorisation response code);
- magnetic stripe service codes (`non_emv`).

Each parser states in its contract exactly what it returns for every input,
over a mathematical model of its result; the round trips between parsing and
writing values back are proved as lemmas beside the types, and for each TLV
format a lemma shows that input that parses is the parsed tags written
out one after the other.

`app/` is the command line tool around the library: argument handling,
configuration from a file and the environment, and the coloured output.
